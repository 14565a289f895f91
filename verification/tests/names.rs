use lib::error::ParseError;
use lib::objects::name_is;
use lib::objects::{Name, ObjectType};
use lib::optional_content::{Intent, ListMode, OptionalContentBaseState};
use lib::page::TabOrder;
use lib::render::text_state::TextRenderingMode;
use lib::render::OverprintMode;
use lib::resources::graphics_state_parameters::{
    BlendMode, LineCapStyle, LineJoinStyle, RenderingIntent, SoftMaskSubtype,
};
use lib::resources::pattern::{PaintType, PatternType, TilingType};
use lib::resources::ProcedureSet;
use lib::shading::freeform::{BitsPerCoordinate, BitsPerFlag};
use lib::shading::ShadingType;
use lib::structure::{StandardStructureType, StructureType};
use lib::viewer_preferences::{
    Duplex, PageBoundary, PageMode, PageRange, PageRanges, PageScaling, TextDirection, ViewerPreferences,
};
use lib::xobject::XObjectSubtype;

fn unrecognized(ty: &'static str, name: &str) -> ParseError {
    ParseError::UnrecognizedVariant { ty, name: name.to_owned() }
}

#[test]
fn names_compare_exactly() {
    assert!(name_is("Form", "Form"));
    assert!(!name_is("Form", "form"));
    assert!(!name_is("Forms", "Form"));
    assert_eq!(Name("A".to_owned()), Name("A".to_owned()));
    assert_ne!(ObjectType::Array, ObjectType::Name);
}

#[test]
fn rendering_intents() {
    assert_eq!(RenderingIntent::from_str("Saturation"), Ok(RenderingIntent::Saturation));
    assert_eq!(RenderingIntent::from_str("Perceptual"), Ok(RenderingIntent::Perceptual));
    assert_eq!(
        RenderingIntent::from_str("AbsoluteColorimetric"),
        Ok(RenderingIntent::AbsoluteColorimetric)
    );
    assert_eq!(RenderingIntent::from_str("Vivid"), Err(unrecognized("RenderingIntent", "Vivid")));
}

#[test]
fn procedure_sets() {
    assert_eq!(ProcedureSet::from_str("PDF"), Ok(ProcedureSet::Pdf));
    assert_eq!(ProcedureSet::from_str("ImageI"), Ok(ProcedureSet::ImageI));
    assert_eq!(ProcedureSet::from_str("Pdf"), Err(unrecognized("ProcedureSet", "Pdf")));
}

#[test]
fn blend_modes() {
    assert!(matches!(BlendMode::from_str("Multiply".to_owned()), BlendMode::Multiply));
    assert!(matches!(BlendMode::from_str("Compatible".to_owned()), BlendMode::Compatible));
    match BlendMode::from_str("Dissolve".to_owned()) {
        BlendMode::Unknown(s) => assert_eq!(s, "Dissolve"),
        other => panic!("unexpected {:?}", other),
    }
}

#[test]
fn structure_types() {
    assert_eq!(StandardStructureType::from_str("Sect"), Ok(StandardStructureType::Section));
    assert_eq!(StandardStructureType::from_str("TOCI"), Ok(StandardStructureType::TableOfContentsItem));
    assert!(matches!(
        StructureType::from_str("Art".to_owned()),
        StructureType::Standard(StandardStructureType::Article)
    ));
    match StructureType::from_str("Chapter".to_owned()) {
        StructureType::Other(s) => assert_eq!(s, "Chapter"),
        other => panic!("unexpected {:?}", other),
    }
}

#[test]
fn integer_enums() {
    assert_eq!(LineJoinStyle::from_integer(2), Ok(LineJoinStyle::Bevel));
    assert_eq!(
        LineJoinStyle::from_integer(3),
        Err(ParseError::UnrecognizedInteger { ty: "LineJoinStyle", number: 3 })
    );
    assert_eq!(LineCapStyle::from_integer(0), Ok(LineCapStyle::Butt));
    assert_eq!(TextRenderingMode::from_integer(7), Ok(TextRenderingMode::AddToClipping));
    assert!(TextRenderingMode::from_integer(-1).is_err());
    assert_eq!(ShadingType::from_integer(4), Ok(ShadingType::Freeform));
    assert!(ShadingType::from_integer(0).is_err());
    assert_eq!(BitsPerCoordinate::from_integer(32), Ok(BitsPerCoordinate::ThirtyTwo));
    assert!(BitsPerCoordinate::from_integer(3).is_err());
    assert_eq!(BitsPerFlag::from_integer(8), Ok(BitsPerFlag::Eight));
    assert!(BitsPerFlag::from_integer(1).is_err());
    assert_eq!(OverprintMode::from_integer(1), Ok(OverprintMode::NonZero));
    assert_eq!(PatternType::from_integer(2), Ok(PatternType::Shading));
    assert_eq!(PaintType::from_integer(1), Ok(PaintType::Colored));
    assert_eq!(TilingType::from_integer(3), Ok(TilingType::ConstantSpacingAndFasterTiling));
    assert!(TilingType::from_integer(4).is_err());
}

#[test]
fn other_named_values() {
    assert_eq!(SoftMaskSubtype::from_str("Luminosity"), Ok(SoftMaskSubtype::Luminosity));
    assert_eq!(XObjectSubtype::from_str("PS"), Ok(XObjectSubtype::PostScript));
    assert_eq!(XObjectSubtype::from_str("Image"), Ok(XObjectSubtype::Image));
    assert_eq!(XObjectSubtype::from_str("Group"), Err(unrecognized("XObjectSubtype", "Group")));
    assert_eq!(TabOrder::from_str("S"), Ok(TabOrder::Structure));
    assert_eq!(ListMode::from_str("VisiblePages"), Ok(ListMode::VisiblePages));
    assert_eq!(OptionalContentBaseState::from_str("OFF"), Ok(OptionalContentBaseState::Off));
    assert_eq!(Intent::from_str("All"), Ok(Intent::All));
    assert_eq!(TextDirection::from_str("R2L"), Ok(TextDirection::RightToLeft));
    assert_eq!(PageScaling::from_str("None"), Ok(PageScaling::NoScaling));
    assert_eq!(Duplex::from_str("Simplex"), Ok(Duplex::Simplex));
    assert_eq!(PageBoundary::from_str("TrimBox"), Ok(PageBoundary::TrimBox));
    assert!(PageBoundary::from_str("").is_err());
}

#[test]
fn defaults() {
    assert_eq!(ListMode::default(), ListMode::AllPages);
    assert_eq!(OptionalContentBaseState::default(), OptionalContentBaseState::On);
    assert_eq!(Intent::default(), Intent::View);
    assert_eq!(TextDirection::default(), TextDirection::LeftToRight);
    assert_eq!(PageScaling::default(), PageScaling::AppDefault);
    assert_eq!(PageBoundary::default(), PageBoundary::CropBox);
}

#[test]
fn page_modes_and_ranges() {
    assert_eq!(PageMode::from_str("UseOC"), Ok(PageMode::UseOc));
    assert_eq!(PageMode::default(), PageMode::UseNone);
    assert!(PageMode::from_str("UseOc").is_err());
    let r = PageRanges::from_integers(&[1, 3, 7, 9, 12]);
    assert_eq!(r.0, vec![PageRange { first: 1, last: 3 }, PageRange { first: 7, last: 9 }]);
    assert!(PageRanges::from_integers(&[4]).0.is_empty());
    let v = ViewerPreferences {
        hide_toolbar: false,
        hide_menubar: false,
        hide_window_ui: false,
        fit_window: true,
        center_window: false,
        display_doc_title: false,
        non_full_screen_page_mode: PageMode::default(),
        direction: TextDirection::default(),
        view_area: PageBoundary::default(),
        view_clip: PageBoundary::default(),
        print_area: PageBoundary::default(),
        print_clip: PageBoundary::default(),
        print_scaling: PageScaling::default(),
        duplex: None,
        pick_tray_by_pdf_size: false,
        print_page_range: Some(r),
        num_copies: Some(2),
    };
    assert!(v.fit_window);
}
