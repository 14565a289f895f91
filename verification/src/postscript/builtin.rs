//! The built-in dictionaries of the PostScript execution environment.

use vstd::prelude::*;

use super::object::PostScriptString;
use super::operator::PostscriptOperator;

verus! {

/// The names that the system dictionary defines, each with the operator it
/// stands for, in the order in which they are entered
pub open spec fn spec_system_entries() -> Seq<(Seq<u8>, PostscriptOperator)> {
    seq![
        (seq![97u8, 98u8, 115u8], PostscriptOperator::Abs),  // abs
        (seq![97u8, 100u8, 100u8], PostscriptOperator::Add),  // add
        (seq![100u8, 105u8, 99u8, 116u8], PostscriptOperator::Dict),  // dict
        (seq![98u8, 101u8, 103u8, 105u8, 110u8], PostscriptOperator::Begin),  // begin
        (seq![100u8, 117u8, 112u8], PostscriptOperator::Dup),  // dup
        (seq![100u8, 101u8, 102u8], PostscriptOperator::Def),  // def
        (seq![114u8, 101u8, 97u8, 100u8, 111u8, 110u8, 108u8, 121u8], PostscriptOperator::ReadOnly),  // readonly
        (seq![101u8, 120u8, 101u8, 99u8, 117u8, 116u8, 101u8, 111u8, 110u8, 108u8, 121u8], PostscriptOperator::ExecuteOnly),  // executeonly
        (seq![110u8, 111u8, 97u8, 99u8, 99u8, 101u8, 115u8, 115u8], PostscriptOperator::NoAccess),  // noaccess
        (seq![102u8, 97u8, 108u8, 115u8, 101u8], PostscriptOperator::False),  // false
        (seq![116u8, 114u8, 117u8, 101u8], PostscriptOperator::True),  // true
        (seq![101u8, 110u8, 100u8], PostscriptOperator::End),  // end
        (seq![99u8, 117u8, 114u8, 114u8, 101u8, 110u8, 116u8, 102u8, 105u8, 108u8, 101u8], PostscriptOperator::CurrentFile),  // currentfile
        (seq![101u8, 101u8, 120u8, 101u8, 99u8], PostscriptOperator::EExec),  // eexec
        (seq![97u8, 114u8, 114u8, 97u8, 121u8, 115u8, 116u8, 97u8, 114u8, 116u8], PostscriptOperator::ArrayStart),  // arraystart
        (seq![97u8, 114u8, 114u8, 97u8, 121u8, 101u8, 110u8, 100u8], PostscriptOperator::ArrayEnd),  // arrayend
        (seq![123u8], PostscriptOperator::ProcedureStart),  // {
        (seq![125u8], PostscriptOperator::ProcedureEnd),  // }
        (seq![99u8, 117u8, 114u8, 114u8, 101u8, 110u8, 116u8, 100u8, 105u8, 99u8, 116u8], PostscriptOperator::CurrentDict),  // currentdict
        (seq![115u8, 116u8, 114u8, 105u8, 110u8, 103u8], PostscriptOperator::String),  // string
        (seq![101u8, 120u8, 99u8, 104u8], PostscriptOperator::Exch),  // exch
        (seq![114u8, 101u8, 97u8, 100u8, 115u8, 116u8, 114u8, 105u8, 110u8, 103u8], PostscriptOperator::ReadString),  // readstring
        (seq![112u8, 111u8, 112u8], PostscriptOperator::Pop),  // pop
        (seq![112u8, 117u8, 116u8], PostscriptOperator::Put),  // put
        (seq![105u8, 110u8, 116u8, 101u8, 114u8, 110u8, 97u8, 108u8, 100u8, 105u8, 99u8, 116u8], PostscriptOperator::InternalDict),  // internaldict
        (seq![99u8, 118u8, 120u8], PostscriptOperator::Cvx),  // cvx
        (seq![109u8, 97u8, 120u8, 108u8, 101u8, 110u8, 103u8, 116u8, 104u8], PostscriptOperator::MaxLength),  // maxlength
    ]
}

/// The system dictionary: the operator that each of its names stands for
pub open spec fn spec_system_dict() -> Map<Seq<u8>, PostscriptOperator> {
    map![
        seq![97u8, 98u8, 115u8] => PostscriptOperator::Abs,  // abs
        seq![97u8, 100u8, 100u8] => PostscriptOperator::Add,  // add
        seq![100u8, 105u8, 99u8, 116u8] => PostscriptOperator::Dict,  // dict
        seq![98u8, 101u8, 103u8, 105u8, 110u8] => PostscriptOperator::Begin,  // begin
        seq![100u8, 117u8, 112u8] => PostscriptOperator::Dup,  // dup
        seq![100u8, 101u8, 102u8] => PostscriptOperator::Def,  // def
        seq![114u8, 101u8, 97u8, 100u8, 111u8, 110u8, 108u8, 121u8] => PostscriptOperator::ReadOnly,  // readonly
        seq![101u8, 120u8, 101u8, 99u8, 117u8, 116u8, 101u8, 111u8, 110u8, 108u8, 121u8] => PostscriptOperator::ExecuteOnly,  // executeonly
        seq![110u8, 111u8, 97u8, 99u8, 99u8, 101u8, 115u8, 115u8] => PostscriptOperator::NoAccess,  // noaccess
        seq![102u8, 97u8, 108u8, 115u8, 101u8] => PostscriptOperator::False,  // false
        seq![116u8, 114u8, 117u8, 101u8] => PostscriptOperator::True,  // true
        seq![101u8, 110u8, 100u8] => PostscriptOperator::End,  // end
        seq![99u8, 117u8, 114u8, 114u8, 101u8, 110u8, 116u8, 102u8, 105u8, 108u8, 101u8] => PostscriptOperator::CurrentFile,  // currentfile
        seq![101u8, 101u8, 120u8, 101u8, 99u8] => PostscriptOperator::EExec,  // eexec
        seq![97u8, 114u8, 114u8, 97u8, 121u8, 115u8, 116u8, 97u8, 114u8, 116u8] => PostscriptOperator::ArrayStart,  // arraystart
        seq![97u8, 114u8, 114u8, 97u8, 121u8, 101u8, 110u8, 100u8] => PostscriptOperator::ArrayEnd,  // arrayend
        seq![123u8] => PostscriptOperator::ProcedureStart,  // {
        seq![125u8] => PostscriptOperator::ProcedureEnd,  // }
        seq![99u8, 117u8, 114u8, 114u8, 101u8, 110u8, 116u8, 100u8, 105u8, 99u8, 116u8] => PostscriptOperator::CurrentDict,  // currentdict
        seq![115u8, 116u8, 114u8, 105u8, 110u8, 103u8] => PostscriptOperator::String,  // string
        seq![101u8, 120u8, 99u8, 104u8] => PostscriptOperator::Exch,  // exch
        seq![114u8, 101u8, 97u8, 100u8, 115u8, 116u8, 114u8, 105u8, 110u8, 103u8] => PostscriptOperator::ReadString,  // readstring
        seq![112u8, 111u8, 112u8] => PostscriptOperator::Pop,  // pop
        seq![112u8, 117u8, 116u8] => PostscriptOperator::Put,  // put
        seq![105u8, 110u8, 116u8, 101u8, 114u8, 110u8, 97u8, 108u8, 100u8, 105u8, 99u8, 116u8] => PostscriptOperator::InternalDict,  // internaldict
        seq![99u8, 118u8, 120u8] => PostscriptOperator::Cvx,  // cvx
        seq![109u8, 97u8, 120u8, 108u8, 101u8, 110u8, 103u8, 116u8, 104u8] => PostscriptOperator::MaxLength,  // maxlength
    ]
}

/// The entries of a dictionary under construction, as plain values
pub open spec fn entries_view(d: Seq<(PostScriptString, PostscriptOperator)>) -> Seq<(Seq<u8>, PostscriptOperator)> {
    d.map_values(|e: (PostScriptString, PostscriptOperator)| (e.0@, e.1))
}

/// No name of the system dictionary is entered twice.
proof fn lemma_system_names_distinct()
    ensures
        forall|i: int, j: int|
            0 <= i < j < spec_system_entries().len() ==> spec_system_entries()[i].0 != spec_system_entries()[j].0,
{
    let e = spec_system_entries();
    assert forall|i: int, j: int| 0 <= i < j < e.len() implies e[i].0 != e[j].0 by {
        if i == 0 {
            if j == 1 { assert(e[0].0[1] != e[1].0[1]); }
            if j == 2 { assert(e[0].0.len() != e[2].0.len()); }
            if j == 3 { assert(e[0].0.len() != e[3].0.len()); }
            if j == 4 { assert(e[0].0[0] != e[4].0[0]); }
            if j == 5 { assert(e[0].0[0] != e[5].0[0]); }
            if j == 6 { assert(e[0].0.len() != e[6].0.len()); }
            if j == 7 { assert(e[0].0.len() != e[7].0.len()); }
            if j == 8 { assert(e[0].0.len() != e[8].0.len()); }
            if j == 9 { assert(e[0].0.len() != e[9].0.len()); }
            if j == 10 { assert(e[0].0.len() != e[10].0.len()); }
            if j == 11 { assert(e[0].0[0] != e[11].0[0]); }
            if j == 12 { assert(e[0].0.len() != e[12].0.len()); }
            if j == 13 { assert(e[0].0.len() != e[13].0.len()); }
            if j == 14 { assert(e[0].0.len() != e[14].0.len()); }
            if j == 15 { assert(e[0].0.len() != e[15].0.len()); }
            if j == 16 { assert(e[0].0.len() != e[16].0.len()); }
            if j == 17 { assert(e[0].0.len() != e[17].0.len()); }
            if j == 18 { assert(e[0].0.len() != e[18].0.len()); }
            if j == 19 { assert(e[0].0.len() != e[19].0.len()); }
            if j == 20 { assert(e[0].0.len() != e[20].0.len()); }
            if j == 21 { assert(e[0].0.len() != e[21].0.len()); }
            if j == 22 { assert(e[0].0[0] != e[22].0[0]); }
            if j == 23 { assert(e[0].0[0] != e[23].0[0]); }
            if j == 24 { assert(e[0].0.len() != e[24].0.len()); }
            if j == 25 { assert(e[0].0[0] != e[25].0[0]); }
            if j == 26 { assert(e[0].0.len() != e[26].0.len()); }
        }
        if i == 1 {
            if j == 2 { assert(e[1].0.len() != e[2].0.len()); }
            if j == 3 { assert(e[1].0.len() != e[3].0.len()); }
            if j == 4 { assert(e[1].0[0] != e[4].0[0]); }
            if j == 5 { assert(e[1].0[0] != e[5].0[0]); }
            if j == 6 { assert(e[1].0.len() != e[6].0.len()); }
            if j == 7 { assert(e[1].0.len() != e[7].0.len()); }
            if j == 8 { assert(e[1].0.len() != e[8].0.len()); }
            if j == 9 { assert(e[1].0.len() != e[9].0.len()); }
            if j == 10 { assert(e[1].0.len() != e[10].0.len()); }
            if j == 11 { assert(e[1].0[0] != e[11].0[0]); }
            if j == 12 { assert(e[1].0.len() != e[12].0.len()); }
            if j == 13 { assert(e[1].0.len() != e[13].0.len()); }
            if j == 14 { assert(e[1].0.len() != e[14].0.len()); }
            if j == 15 { assert(e[1].0.len() != e[15].0.len()); }
            if j == 16 { assert(e[1].0.len() != e[16].0.len()); }
            if j == 17 { assert(e[1].0.len() != e[17].0.len()); }
            if j == 18 { assert(e[1].0.len() != e[18].0.len()); }
            if j == 19 { assert(e[1].0.len() != e[19].0.len()); }
            if j == 20 { assert(e[1].0.len() != e[20].0.len()); }
            if j == 21 { assert(e[1].0.len() != e[21].0.len()); }
            if j == 22 { assert(e[1].0[0] != e[22].0[0]); }
            if j == 23 { assert(e[1].0[0] != e[23].0[0]); }
            if j == 24 { assert(e[1].0.len() != e[24].0.len()); }
            if j == 25 { assert(e[1].0[0] != e[25].0[0]); }
            if j == 26 { assert(e[1].0.len() != e[26].0.len()); }
        }
        if i == 2 {
            if j == 3 { assert(e[2].0.len() != e[3].0.len()); }
            if j == 4 { assert(e[2].0.len() != e[4].0.len()); }
            if j == 5 { assert(e[2].0.len() != e[5].0.len()); }
            if j == 6 { assert(e[2].0.len() != e[6].0.len()); }
            if j == 7 { assert(e[2].0.len() != e[7].0.len()); }
            if j == 8 { assert(e[2].0.len() != e[8].0.len()); }
            if j == 9 { assert(e[2].0.len() != e[9].0.len()); }
            if j == 10 { assert(e[2].0[0] != e[10].0[0]); }
            if j == 11 { assert(e[2].0.len() != e[11].0.len()); }
            if j == 12 { assert(e[2].0.len() != e[12].0.len()); }
            if j == 13 { assert(e[2].0.len() != e[13].0.len()); }
            if j == 14 { assert(e[2].0.len() != e[14].0.len()); }
            if j == 15 { assert(e[2].0.len() != e[15].0.len()); }
            if j == 16 { assert(e[2].0.len() != e[16].0.len()); }
            if j == 17 { assert(e[2].0.len() != e[17].0.len()); }
            if j == 18 { assert(e[2].0.len() != e[18].0.len()); }
            if j == 19 { assert(e[2].0.len() != e[19].0.len()); }
            if j == 20 { assert(e[2].0[0] != e[20].0[0]); }
            if j == 21 { assert(e[2].0.len() != e[21].0.len()); }
            if j == 22 { assert(e[2].0.len() != e[22].0.len()); }
            if j == 23 { assert(e[2].0.len() != e[23].0.len()); }
            if j == 24 { assert(e[2].0.len() != e[24].0.len()); }
            if j == 25 { assert(e[2].0.len() != e[25].0.len()); }
            if j == 26 { assert(e[2].0.len() != e[26].0.len()); }
        }
        if i == 3 {
            if j == 4 { assert(e[3].0.len() != e[4].0.len()); }
            if j == 5 { assert(e[3].0.len() != e[5].0.len()); }
            if j == 6 { assert(e[3].0.len() != e[6].0.len()); }
            if j == 7 { assert(e[3].0.len() != e[7].0.len()); }
            if j == 8 { assert(e[3].0.len() != e[8].0.len()); }
            if j == 9 { assert(e[3].0[0] != e[9].0[0]); }
            if j == 10 { assert(e[3].0.len() != e[10].0.len()); }
            if j == 11 { assert(e[3].0.len() != e[11].0.len()); }
            if j == 12 { assert(e[3].0.len() != e[12].0.len()); }
            if j == 13 { assert(e[3].0[0] != e[13].0[0]); }
            if j == 14 { assert(e[3].0.len() != e[14].0.len()); }
            if j == 15 { assert(e[3].0.len() != e[15].0.len()); }
            if j == 16 { assert(e[3].0.len() != e[16].0.len()); }
            if j == 17 { assert(e[3].0.len() != e[17].0.len()); }
            if j == 18 { assert(e[3].0.len() != e[18].0.len()); }
            if j == 19 { assert(e[3].0.len() != e[19].0.len()); }
            if j == 20 { assert(e[3].0.len() != e[20].0.len()); }
            if j == 21 { assert(e[3].0.len() != e[21].0.len()); }
            if j == 22 { assert(e[3].0.len() != e[22].0.len()); }
            if j == 23 { assert(e[3].0.len() != e[23].0.len()); }
            if j == 24 { assert(e[3].0.len() != e[24].0.len()); }
            if j == 25 { assert(e[3].0.len() != e[25].0.len()); }
            if j == 26 { assert(e[3].0.len() != e[26].0.len()); }
        }
        if i == 4 {
            if j == 5 { assert(e[4].0[1] != e[5].0[1]); }
            if j == 6 { assert(e[4].0.len() != e[6].0.len()); }
            if j == 7 { assert(e[4].0.len() != e[7].0.len()); }
            if j == 8 { assert(e[4].0.len() != e[8].0.len()); }
            if j == 9 { assert(e[4].0.len() != e[9].0.len()); }
            if j == 10 { assert(e[4].0.len() != e[10].0.len()); }
            if j == 11 { assert(e[4].0[0] != e[11].0[0]); }
            if j == 12 { assert(e[4].0.len() != e[12].0.len()); }
            if j == 13 { assert(e[4].0.len() != e[13].0.len()); }
            if j == 14 { assert(e[4].0.len() != e[14].0.len()); }
            if j == 15 { assert(e[4].0.len() != e[15].0.len()); }
            if j == 16 { assert(e[4].0.len() != e[16].0.len()); }
            if j == 17 { assert(e[4].0.len() != e[17].0.len()); }
            if j == 18 { assert(e[4].0.len() != e[18].0.len()); }
            if j == 19 { assert(e[4].0.len() != e[19].0.len()); }
            if j == 20 { assert(e[4].0.len() != e[20].0.len()); }
            if j == 21 { assert(e[4].0.len() != e[21].0.len()); }
            if j == 22 { assert(e[4].0[0] != e[22].0[0]); }
            if j == 23 { assert(e[4].0[0] != e[23].0[0]); }
            if j == 24 { assert(e[4].0.len() != e[24].0.len()); }
            if j == 25 { assert(e[4].0[0] != e[25].0[0]); }
            if j == 26 { assert(e[4].0.len() != e[26].0.len()); }
        }
        if i == 5 {
            if j == 6 { assert(e[5].0.len() != e[6].0.len()); }
            if j == 7 { assert(e[5].0.len() != e[7].0.len()); }
            if j == 8 { assert(e[5].0.len() != e[8].0.len()); }
            if j == 9 { assert(e[5].0.len() != e[9].0.len()); }
            if j == 10 { assert(e[5].0.len() != e[10].0.len()); }
            if j == 11 { assert(e[5].0[0] != e[11].0[0]); }
            if j == 12 { assert(e[5].0.len() != e[12].0.len()); }
            if j == 13 { assert(e[5].0.len() != e[13].0.len()); }
            if j == 14 { assert(e[5].0.len() != e[14].0.len()); }
            if j == 15 { assert(e[5].0.len() != e[15].0.len()); }
            if j == 16 { assert(e[5].0.len() != e[16].0.len()); }
            if j == 17 { assert(e[5].0.len() != e[17].0.len()); }
            if j == 18 { assert(e[5].0.len() != e[18].0.len()); }
            if j == 19 { assert(e[5].0.len() != e[19].0.len()); }
            if j == 20 { assert(e[5].0.len() != e[20].0.len()); }
            if j == 21 { assert(e[5].0.len() != e[21].0.len()); }
            if j == 22 { assert(e[5].0[0] != e[22].0[0]); }
            if j == 23 { assert(e[5].0[0] != e[23].0[0]); }
            if j == 24 { assert(e[5].0.len() != e[24].0.len()); }
            if j == 25 { assert(e[5].0[0] != e[25].0[0]); }
            if j == 26 { assert(e[5].0.len() != e[26].0.len()); }
        }
        if i == 6 {
            if j == 7 { assert(e[6].0.len() != e[7].0.len()); }
            if j == 8 { assert(e[6].0[0] != e[8].0[0]); }
            if j == 9 { assert(e[6].0.len() != e[9].0.len()); }
            if j == 10 { assert(e[6].0.len() != e[10].0.len()); }
            if j == 11 { assert(e[6].0.len() != e[11].0.len()); }
            if j == 12 { assert(e[6].0.len() != e[12].0.len()); }
            if j == 13 { assert(e[6].0.len() != e[13].0.len()); }
            if j == 14 { assert(e[6].0.len() != e[14].0.len()); }
            if j == 15 { assert(e[6].0[0] != e[15].0[0]); }
            if j == 16 { assert(e[6].0.len() != e[16].0.len()); }
            if j == 17 { assert(e[6].0.len() != e[17].0.len()); }
            if j == 18 { assert(e[6].0.len() != e[18].0.len()); }
            if j == 19 { assert(e[6].0.len() != e[19].0.len()); }
            if j == 20 { assert(e[6].0.len() != e[20].0.len()); }
            if j == 21 { assert(e[6].0.len() != e[21].0.len()); }
            if j == 22 { assert(e[6].0.len() != e[22].0.len()); }
            if j == 23 { assert(e[6].0.len() != e[23].0.len()); }
            if j == 24 { assert(e[6].0.len() != e[24].0.len()); }
            if j == 25 { assert(e[6].0.len() != e[25].0.len()); }
            if j == 26 { assert(e[6].0.len() != e[26].0.len()); }
        }
        if i == 7 {
            if j == 8 { assert(e[7].0.len() != e[8].0.len()); }
            if j == 9 { assert(e[7].0.len() != e[9].0.len()); }
            if j == 10 { assert(e[7].0.len() != e[10].0.len()); }
            if j == 11 { assert(e[7].0.len() != e[11].0.len()); }
            if j == 12 { assert(e[7].0[0] != e[12].0[0]); }
            if j == 13 { assert(e[7].0.len() != e[13].0.len()); }
            if j == 14 { assert(e[7].0.len() != e[14].0.len()); }
            if j == 15 { assert(e[7].0.len() != e[15].0.len()); }
            if j == 16 { assert(e[7].0.len() != e[16].0.len()); }
            if j == 17 { assert(e[7].0.len() != e[17].0.len()); }
            if j == 18 { assert(e[7].0[0] != e[18].0[0]); }
            if j == 19 { assert(e[7].0.len() != e[19].0.len()); }
            if j == 20 { assert(e[7].0.len() != e[20].0.len()); }
            if j == 21 { assert(e[7].0.len() != e[21].0.len()); }
            if j == 22 { assert(e[7].0.len() != e[22].0.len()); }
            if j == 23 { assert(e[7].0.len() != e[23].0.len()); }
            if j == 24 { assert(e[7].0.len() != e[24].0.len()); }
            if j == 25 { assert(e[7].0.len() != e[25].0.len()); }
            if j == 26 { assert(e[7].0.len() != e[26].0.len()); }
        }
        if i == 8 {
            if j == 9 { assert(e[8].0.len() != e[9].0.len()); }
            if j == 10 { assert(e[8].0.len() != e[10].0.len()); }
            if j == 11 { assert(e[8].0.len() != e[11].0.len()); }
            if j == 12 { assert(e[8].0.len() != e[12].0.len()); }
            if j == 13 { assert(e[8].0.len() != e[13].0.len()); }
            if j == 14 { assert(e[8].0.len() != e[14].0.len()); }
            if j == 15 { assert(e[8].0[0] != e[15].0[0]); }
            if j == 16 { assert(e[8].0.len() != e[16].0.len()); }
            if j == 17 { assert(e[8].0.len() != e[17].0.len()); }
            if j == 18 { assert(e[8].0.len() != e[18].0.len()); }
            if j == 19 { assert(e[8].0.len() != e[19].0.len()); }
            if j == 20 { assert(e[8].0.len() != e[20].0.len()); }
            if j == 21 { assert(e[8].0.len() != e[21].0.len()); }
            if j == 22 { assert(e[8].0.len() != e[22].0.len()); }
            if j == 23 { assert(e[8].0.len() != e[23].0.len()); }
            if j == 24 { assert(e[8].0.len() != e[24].0.len()); }
            if j == 25 { assert(e[8].0.len() != e[25].0.len()); }
            if j == 26 { assert(e[8].0.len() != e[26].0.len()); }
        }
        if i == 9 {
            if j == 10 { assert(e[9].0.len() != e[10].0.len()); }
            if j == 11 { assert(e[9].0.len() != e[11].0.len()); }
            if j == 12 { assert(e[9].0.len() != e[12].0.len()); }
            if j == 13 { assert(e[9].0[0] != e[13].0[0]); }
            if j == 14 { assert(e[9].0.len() != e[14].0.len()); }
            if j == 15 { assert(e[9].0.len() != e[15].0.len()); }
            if j == 16 { assert(e[9].0.len() != e[16].0.len()); }
            if j == 17 { assert(e[9].0.len() != e[17].0.len()); }
            if j == 18 { assert(e[9].0.len() != e[18].0.len()); }
            if j == 19 { assert(e[9].0.len() != e[19].0.len()); }
            if j == 20 { assert(e[9].0.len() != e[20].0.len()); }
            if j == 21 { assert(e[9].0.len() != e[21].0.len()); }
            if j == 22 { assert(e[9].0.len() != e[22].0.len()); }
            if j == 23 { assert(e[9].0.len() != e[23].0.len()); }
            if j == 24 { assert(e[9].0.len() != e[24].0.len()); }
            if j == 25 { assert(e[9].0.len() != e[25].0.len()); }
            if j == 26 { assert(e[9].0.len() != e[26].0.len()); }
        }
        if i == 10 {
            if j == 11 { assert(e[10].0.len() != e[11].0.len()); }
            if j == 12 { assert(e[10].0.len() != e[12].0.len()); }
            if j == 13 { assert(e[10].0.len() != e[13].0.len()); }
            if j == 14 { assert(e[10].0.len() != e[14].0.len()); }
            if j == 15 { assert(e[10].0.len() != e[15].0.len()); }
            if j == 16 { assert(e[10].0.len() != e[16].0.len()); }
            if j == 17 { assert(e[10].0.len() != e[17].0.len()); }
            if j == 18 { assert(e[10].0.len() != e[18].0.len()); }
            if j == 19 { assert(e[10].0.len() != e[19].0.len()); }
            if j == 20 { assert(e[10].0[0] != e[20].0[0]); }
            if j == 21 { assert(e[10].0.len() != e[21].0.len()); }
            if j == 22 { assert(e[10].0.len() != e[22].0.len()); }
            if j == 23 { assert(e[10].0.len() != e[23].0.len()); }
            if j == 24 { assert(e[10].0.len() != e[24].0.len()); }
            if j == 25 { assert(e[10].0.len() != e[25].0.len()); }
            if j == 26 { assert(e[10].0.len() != e[26].0.len()); }
        }
        if i == 11 {
            if j == 12 { assert(e[11].0.len() != e[12].0.len()); }
            if j == 13 { assert(e[11].0.len() != e[13].0.len()); }
            if j == 14 { assert(e[11].0.len() != e[14].0.len()); }
            if j == 15 { assert(e[11].0.len() != e[15].0.len()); }
            if j == 16 { assert(e[11].0.len() != e[16].0.len()); }
            if j == 17 { assert(e[11].0.len() != e[17].0.len()); }
            if j == 18 { assert(e[11].0.len() != e[18].0.len()); }
            if j == 19 { assert(e[11].0.len() != e[19].0.len()); }
            if j == 20 { assert(e[11].0.len() != e[20].0.len()); }
            if j == 21 { assert(e[11].0.len() != e[21].0.len()); }
            if j == 22 { assert(e[11].0[0] != e[22].0[0]); }
            if j == 23 { assert(e[11].0[0] != e[23].0[0]); }
            if j == 24 { assert(e[11].0.len() != e[24].0.len()); }
            if j == 25 { assert(e[11].0[0] != e[25].0[0]); }
            if j == 26 { assert(e[11].0.len() != e[26].0.len()); }
        }
        if i == 12 {
            if j == 13 { assert(e[12].0.len() != e[13].0.len()); }
            if j == 14 { assert(e[12].0.len() != e[14].0.len()); }
            if j == 15 { assert(e[12].0.len() != e[15].0.len()); }
            if j == 16 { assert(e[12].0.len() != e[16].0.len()); }
            if j == 17 { assert(e[12].0.len() != e[17].0.len()); }
            if j == 18 { assert(e[12].0[7] != e[18].0[7]); }
            if j == 19 { assert(e[12].0.len() != e[19].0.len()); }
            if j == 20 { assert(e[12].0.len() != e[20].0.len()); }
            if j == 21 { assert(e[12].0.len() != e[21].0.len()); }
            if j == 22 { assert(e[12].0.len() != e[22].0.len()); }
            if j == 23 { assert(e[12].0.len() != e[23].0.len()); }
            if j == 24 { assert(e[12].0.len() != e[24].0.len()); }
            if j == 25 { assert(e[12].0.len() != e[25].0.len()); }
            if j == 26 { assert(e[12].0.len() != e[26].0.len()); }
        }
        if i == 13 {
            if j == 14 { assert(e[13].0.len() != e[14].0.len()); }
            if j == 15 { assert(e[13].0.len() != e[15].0.len()); }
            if j == 16 { assert(e[13].0.len() != e[16].0.len()); }
            if j == 17 { assert(e[13].0.len() != e[17].0.len()); }
            if j == 18 { assert(e[13].0.len() != e[18].0.len()); }
            if j == 19 { assert(e[13].0.len() != e[19].0.len()); }
            if j == 20 { assert(e[13].0.len() != e[20].0.len()); }
            if j == 21 { assert(e[13].0.len() != e[21].0.len()); }
            if j == 22 { assert(e[13].0.len() != e[22].0.len()); }
            if j == 23 { assert(e[13].0.len() != e[23].0.len()); }
            if j == 24 { assert(e[13].0.len() != e[24].0.len()); }
            if j == 25 { assert(e[13].0.len() != e[25].0.len()); }
            if j == 26 { assert(e[13].0.len() != e[26].0.len()); }
        }
        if i == 14 {
            if j == 15 { assert(e[14].0.len() != e[15].0.len()); }
            if j == 16 { assert(e[14].0.len() != e[16].0.len()); }
            if j == 17 { assert(e[14].0.len() != e[17].0.len()); }
            if j == 18 { assert(e[14].0.len() != e[18].0.len()); }
            if j == 19 { assert(e[14].0.len() != e[19].0.len()); }
            if j == 20 { assert(e[14].0.len() != e[20].0.len()); }
            if j == 21 { assert(e[14].0[0] != e[21].0[0]); }
            if j == 22 { assert(e[14].0.len() != e[22].0.len()); }
            if j == 23 { assert(e[14].0.len() != e[23].0.len()); }
            if j == 24 { assert(e[14].0.len() != e[24].0.len()); }
            if j == 25 { assert(e[14].0.len() != e[25].0.len()); }
            if j == 26 { assert(e[14].0.len() != e[26].0.len()); }
        }
        if i == 15 {
            if j == 16 { assert(e[15].0.len() != e[16].0.len()); }
            if j == 17 { assert(e[15].0.len() != e[17].0.len()); }
            if j == 18 { assert(e[15].0.len() != e[18].0.len()); }
            if j == 19 { assert(e[15].0.len() != e[19].0.len()); }
            if j == 20 { assert(e[15].0.len() != e[20].0.len()); }
            if j == 21 { assert(e[15].0.len() != e[21].0.len()); }
            if j == 22 { assert(e[15].0.len() != e[22].0.len()); }
            if j == 23 { assert(e[15].0.len() != e[23].0.len()); }
            if j == 24 { assert(e[15].0.len() != e[24].0.len()); }
            if j == 25 { assert(e[15].0.len() != e[25].0.len()); }
            if j == 26 { assert(e[15].0.len() != e[26].0.len()); }
        }
        if i == 16 {
            if j == 17 { assert(e[16].0[0] != e[17].0[0]); }
            if j == 18 { assert(e[16].0.len() != e[18].0.len()); }
            if j == 19 { assert(e[16].0.len() != e[19].0.len()); }
            if j == 20 { assert(e[16].0.len() != e[20].0.len()); }
            if j == 21 { assert(e[16].0.len() != e[21].0.len()); }
            if j == 22 { assert(e[16].0.len() != e[22].0.len()); }
            if j == 23 { assert(e[16].0.len() != e[23].0.len()); }
            if j == 24 { assert(e[16].0.len() != e[24].0.len()); }
            if j == 25 { assert(e[16].0.len() != e[25].0.len()); }
            if j == 26 { assert(e[16].0.len() != e[26].0.len()); }
        }
        if i == 17 {
            if j == 18 { assert(e[17].0.len() != e[18].0.len()); }
            if j == 19 { assert(e[17].0.len() != e[19].0.len()); }
            if j == 20 { assert(e[17].0.len() != e[20].0.len()); }
            if j == 21 { assert(e[17].0.len() != e[21].0.len()); }
            if j == 22 { assert(e[17].0.len() != e[22].0.len()); }
            if j == 23 { assert(e[17].0.len() != e[23].0.len()); }
            if j == 24 { assert(e[17].0.len() != e[24].0.len()); }
            if j == 25 { assert(e[17].0.len() != e[25].0.len()); }
            if j == 26 { assert(e[17].0.len() != e[26].0.len()); }
        }
        if i == 18 {
            if j == 19 { assert(e[18].0.len() != e[19].0.len()); }
            if j == 20 { assert(e[18].0.len() != e[20].0.len()); }
            if j == 21 { assert(e[18].0.len() != e[21].0.len()); }
            if j == 22 { assert(e[18].0.len() != e[22].0.len()); }
            if j == 23 { assert(e[18].0.len() != e[23].0.len()); }
            if j == 24 { assert(e[18].0.len() != e[24].0.len()); }
            if j == 25 { assert(e[18].0.len() != e[25].0.len()); }
            if j == 26 { assert(e[18].0.len() != e[26].0.len()); }
        }
        if i == 19 {
            if j == 20 { assert(e[19].0.len() != e[20].0.len()); }
            if j == 21 { assert(e[19].0.len() != e[21].0.len()); }
            if j == 22 { assert(e[19].0.len() != e[22].0.len()); }
            if j == 23 { assert(e[19].0.len() != e[23].0.len()); }
            if j == 24 { assert(e[19].0.len() != e[24].0.len()); }
            if j == 25 { assert(e[19].0.len() != e[25].0.len()); }
            if j == 26 { assert(e[19].0.len() != e[26].0.len()); }
        }
        if i == 20 {
            if j == 21 { assert(e[20].0.len() != e[21].0.len()); }
            if j == 22 { assert(e[20].0.len() != e[22].0.len()); }
            if j == 23 { assert(e[20].0.len() != e[23].0.len()); }
            if j == 24 { assert(e[20].0.len() != e[24].0.len()); }
            if j == 25 { assert(e[20].0.len() != e[25].0.len()); }
            if j == 26 { assert(e[20].0.len() != e[26].0.len()); }
        }
        if i == 21 {
            if j == 22 { assert(e[21].0.len() != e[22].0.len()); }
            if j == 23 { assert(e[21].0.len() != e[23].0.len()); }
            if j == 24 { assert(e[21].0.len() != e[24].0.len()); }
            if j == 25 { assert(e[21].0.len() != e[25].0.len()); }
            if j == 26 { assert(e[21].0.len() != e[26].0.len()); }
        }
        if i == 22 {
            if j == 23 { assert(e[22].0[1] != e[23].0[1]); }
            if j == 24 { assert(e[22].0.len() != e[24].0.len()); }
            if j == 25 { assert(e[22].0[0] != e[25].0[0]); }
            if j == 26 { assert(e[22].0.len() != e[26].0.len()); }
        }
        if i == 23 {
            if j == 24 { assert(e[23].0.len() != e[24].0.len()); }
            if j == 25 { assert(e[23].0[0] != e[25].0[0]); }
            if j == 26 { assert(e[23].0.len() != e[26].0.len()); }
        }
        if i == 24 {
            if j == 25 { assert(e[24].0.len() != e[25].0.len()); }
            if j == 26 { assert(e[24].0.len() != e[26].0.len()); }
        }
        if i == 25 {
            if j == 26 { assert(e[25].0.len() != e[26].0.len()); }
        }
        if i == 26 {
        }
    }
}

/// Appends the entry `name` for `op`.
fn push_entry(dict: &mut Vec<(PostScriptString, PostscriptOperator)>, name: &[u8], op: PostscriptOperator)
    ensures
        entries_view(final(dict)@) == entries_view(old(dict)@).push((name@, op)),
{
    dict.push((PostScriptString::from_bytes(vstd::slice::slice_to_vec(name)), op));
    assert(entries_view(final(dict)@) =~= entries_view(old(dict)@).push((name@, op)));
}

/// Builds the system dictionary: the operators that PostScript programs
/// reach by name, each under its name, no name twice.
pub fn gen_system_dict() -> (r: Vec<(PostScriptString, PostscriptOperator)>)
    ensures
        entries_view(r@) == spec_system_entries(),
        r@.len() == 27,
        forall|i: int, j: int| 0 <= i < j < r@.len() ==> r@[i].0@ != r@[j].0@,
        forall|i: int|
            0 <= i < r@.len() ==> spec_system_dict().contains_key(#[trigger] r@[i].0@) && spec_system_dict()[r@[i].0@]
                == r@[i].1,
        forall|k: Seq<u8>| #[trigger] spec_system_dict().contains_key(k) ==> exists|i: int| 0 <= i < r@.len() && r@[i].0@ == k,
{
    let mut d: Vec<(PostScriptString, PostscriptOperator)> = Vec::new();
    let name: [u8; 3] = [97, 98, 115];
    assert(name@ =~= seq![97u8, 98u8, 115u8]);
    push_entry(&mut d, &name, PostscriptOperator::Abs);
    let name: [u8; 3] = [97, 100, 100];
    assert(name@ =~= seq![97u8, 100u8, 100u8]);
    push_entry(&mut d, &name, PostscriptOperator::Add);
    let name: [u8; 4] = [100, 105, 99, 116];
    assert(name@ =~= seq![100u8, 105u8, 99u8, 116u8]);
    push_entry(&mut d, &name, PostscriptOperator::Dict);
    let name: [u8; 5] = [98, 101, 103, 105, 110];
    assert(name@ =~= seq![98u8, 101u8, 103u8, 105u8, 110u8]);
    push_entry(&mut d, &name, PostscriptOperator::Begin);
    let name: [u8; 3] = [100, 117, 112];
    assert(name@ =~= seq![100u8, 117u8, 112u8]);
    push_entry(&mut d, &name, PostscriptOperator::Dup);
    let name: [u8; 3] = [100, 101, 102];
    assert(name@ =~= seq![100u8, 101u8, 102u8]);
    push_entry(&mut d, &name, PostscriptOperator::Def);
    let name: [u8; 8] = [114, 101, 97, 100, 111, 110, 108, 121];
    assert(name@ =~= seq![114u8, 101u8, 97u8, 100u8, 111u8, 110u8, 108u8, 121u8]);
    push_entry(&mut d, &name, PostscriptOperator::ReadOnly);
    let name: [u8; 11] = [101, 120, 101, 99, 117, 116, 101, 111, 110, 108, 121];
    assert(name@ =~= seq![101u8, 120u8, 101u8, 99u8, 117u8, 116u8, 101u8, 111u8, 110u8, 108u8, 121u8]);
    push_entry(&mut d, &name, PostscriptOperator::ExecuteOnly);
    let name: [u8; 8] = [110, 111, 97, 99, 99, 101, 115, 115];
    assert(name@ =~= seq![110u8, 111u8, 97u8, 99u8, 99u8, 101u8, 115u8, 115u8]);
    push_entry(&mut d, &name, PostscriptOperator::NoAccess);
    let name: [u8; 5] = [102, 97, 108, 115, 101];
    assert(name@ =~= seq![102u8, 97u8, 108u8, 115u8, 101u8]);
    push_entry(&mut d, &name, PostscriptOperator::False);
    let name: [u8; 4] = [116, 114, 117, 101];
    assert(name@ =~= seq![116u8, 114u8, 117u8, 101u8]);
    push_entry(&mut d, &name, PostscriptOperator::True);
    let name: [u8; 3] = [101, 110, 100];
    assert(name@ =~= seq![101u8, 110u8, 100u8]);
    push_entry(&mut d, &name, PostscriptOperator::End);
    let name: [u8; 11] = [99, 117, 114, 114, 101, 110, 116, 102, 105, 108, 101];
    assert(name@ =~= seq![99u8, 117u8, 114u8, 114u8, 101u8, 110u8, 116u8, 102u8, 105u8, 108u8, 101u8]);
    push_entry(&mut d, &name, PostscriptOperator::CurrentFile);
    let name: [u8; 5] = [101, 101, 120, 101, 99];
    assert(name@ =~= seq![101u8, 101u8, 120u8, 101u8, 99u8]);
    push_entry(&mut d, &name, PostscriptOperator::EExec);
    let name: [u8; 10] = [97, 114, 114, 97, 121, 115, 116, 97, 114, 116];
    assert(name@ =~= seq![97u8, 114u8, 114u8, 97u8, 121u8, 115u8, 116u8, 97u8, 114u8, 116u8]);
    push_entry(&mut d, &name, PostscriptOperator::ArrayStart);
    let name: [u8; 8] = [97, 114, 114, 97, 121, 101, 110, 100];
    assert(name@ =~= seq![97u8, 114u8, 114u8, 97u8, 121u8, 101u8, 110u8, 100u8]);
    push_entry(&mut d, &name, PostscriptOperator::ArrayEnd);
    let name: [u8; 1] = [123];
    assert(name@ =~= seq![123u8]);
    push_entry(&mut d, &name, PostscriptOperator::ProcedureStart);
    let name: [u8; 1] = [125];
    assert(name@ =~= seq![125u8]);
    push_entry(&mut d, &name, PostscriptOperator::ProcedureEnd);
    let name: [u8; 11] = [99, 117, 114, 114, 101, 110, 116, 100, 105, 99, 116];
    assert(name@ =~= seq![99u8, 117u8, 114u8, 114u8, 101u8, 110u8, 116u8, 100u8, 105u8, 99u8, 116u8]);
    push_entry(&mut d, &name, PostscriptOperator::CurrentDict);
    let name: [u8; 6] = [115, 116, 114, 105, 110, 103];
    assert(name@ =~= seq![115u8, 116u8, 114u8, 105u8, 110u8, 103u8]);
    push_entry(&mut d, &name, PostscriptOperator::String);
    let name: [u8; 4] = [101, 120, 99, 104];
    assert(name@ =~= seq![101u8, 120u8, 99u8, 104u8]);
    push_entry(&mut d, &name, PostscriptOperator::Exch);
    let name: [u8; 10] = [114, 101, 97, 100, 115, 116, 114, 105, 110, 103];
    assert(name@ =~= seq![114u8, 101u8, 97u8, 100u8, 115u8, 116u8, 114u8, 105u8, 110u8, 103u8]);
    push_entry(&mut d, &name, PostscriptOperator::ReadString);
    let name: [u8; 3] = [112, 111, 112];
    assert(name@ =~= seq![112u8, 111u8, 112u8]);
    push_entry(&mut d, &name, PostscriptOperator::Pop);
    let name: [u8; 3] = [112, 117, 116];
    assert(name@ =~= seq![112u8, 117u8, 116u8]);
    push_entry(&mut d, &name, PostscriptOperator::Put);
    let name: [u8; 12] = [105, 110, 116, 101, 114, 110, 97, 108, 100, 105, 99, 116];
    assert(name@ =~= seq![105u8, 110u8, 116u8, 101u8, 114u8, 110u8, 97u8, 108u8, 100u8, 105u8, 99u8, 116u8]);
    push_entry(&mut d, &name, PostscriptOperator::InternalDict);
    let name: [u8; 3] = [99, 118, 120];
    assert(name@ =~= seq![99u8, 118u8, 120u8]);
    push_entry(&mut d, &name, PostscriptOperator::Cvx);
    let name: [u8; 9] = [109, 97, 120, 108, 101, 110, 103, 116, 104];
    assert(name@ =~= seq![109u8, 97u8, 120u8, 108u8, 101u8, 110u8, 103u8, 116u8, 104u8]);
    push_entry(&mut d, &name, PostscriptOperator::MaxLength);
    proof {
        let e = spec_system_entries();
        assert(entries_view(d@) =~= e);
        lemma_system_names_distinct();
        assert forall|i: int, j: int| 0 <= i < j < d@.len() implies d@[i].0@ != d@[j].0@ by {
            assert(entries_view(d@)[i] == e[i]);
            assert(entries_view(d@)[j] == e[j]);
        }
        assert forall|i: int| 0 <= i < d@.len() implies spec_system_dict().contains_key(#[trigger] d@[i].0@)
            && spec_system_dict()[d@[i].0@] == d@[i].1 by {
            assert(entries_view(d@)[i] == e[i]);
            if i == 0 { assert(spec_system_dict()[e[0].0] == e[0].1); }
            if i == 1 { assert(spec_system_dict()[e[1].0] == e[1].1); }
            if i == 2 { assert(spec_system_dict()[e[2].0] == e[2].1); }
            if i == 3 { assert(spec_system_dict()[e[3].0] == e[3].1); }
            if i == 4 { assert(spec_system_dict()[e[4].0] == e[4].1); }
            if i == 5 { assert(spec_system_dict()[e[5].0] == e[5].1); }
            if i == 6 { assert(spec_system_dict()[e[6].0] == e[6].1); }
            if i == 7 { assert(spec_system_dict()[e[7].0] == e[7].1); }
            if i == 8 { assert(spec_system_dict()[e[8].0] == e[8].1); }
            if i == 9 { assert(spec_system_dict()[e[9].0] == e[9].1); }
            if i == 10 { assert(spec_system_dict()[e[10].0] == e[10].1); }
            if i == 11 { assert(spec_system_dict()[e[11].0] == e[11].1); }
            if i == 12 { assert(spec_system_dict()[e[12].0] == e[12].1); }
            if i == 13 { assert(spec_system_dict()[e[13].0] == e[13].1); }
            if i == 14 { assert(spec_system_dict()[e[14].0] == e[14].1); }
            if i == 15 { assert(spec_system_dict()[e[15].0] == e[15].1); }
            if i == 16 { assert(spec_system_dict()[e[16].0] == e[16].1); }
            if i == 17 { assert(spec_system_dict()[e[17].0] == e[17].1); }
            if i == 18 { assert(spec_system_dict()[e[18].0] == e[18].1); }
            if i == 19 { assert(spec_system_dict()[e[19].0] == e[19].1); }
            if i == 20 { assert(spec_system_dict()[e[20].0] == e[20].1); }
            if i == 21 { assert(spec_system_dict()[e[21].0] == e[21].1); }
            if i == 22 { assert(spec_system_dict()[e[22].0] == e[22].1); }
            if i == 23 { assert(spec_system_dict()[e[23].0] == e[23].1); }
            if i == 24 { assert(spec_system_dict()[e[24].0] == e[24].1); }
            if i == 25 { assert(spec_system_dict()[e[25].0] == e[25].1); }
            if i == 26 { assert(spec_system_dict()[e[26].0] == e[26].1); }
        }
        assert forall|k: Seq<u8>| #[trigger] spec_system_dict().contains_key(k) implies exists|i: int|
            0 <= i < d@.len() && d@[i].0@ == k by {
            if k == e[0].0 { assert(entries_view(d@)[0] == e[0]); assert(d@[0].0@ == k); }
            if k == e[1].0 { assert(entries_view(d@)[1] == e[1]); assert(d@[1].0@ == k); }
            if k == e[2].0 { assert(entries_view(d@)[2] == e[2]); assert(d@[2].0@ == k); }
            if k == e[3].0 { assert(entries_view(d@)[3] == e[3]); assert(d@[3].0@ == k); }
            if k == e[4].0 { assert(entries_view(d@)[4] == e[4]); assert(d@[4].0@ == k); }
            if k == e[5].0 { assert(entries_view(d@)[5] == e[5]); assert(d@[5].0@ == k); }
            if k == e[6].0 { assert(entries_view(d@)[6] == e[6]); assert(d@[6].0@ == k); }
            if k == e[7].0 { assert(entries_view(d@)[7] == e[7]); assert(d@[7].0@ == k); }
            if k == e[8].0 { assert(entries_view(d@)[8] == e[8]); assert(d@[8].0@ == k); }
            if k == e[9].0 { assert(entries_view(d@)[9] == e[9]); assert(d@[9].0@ == k); }
            if k == e[10].0 { assert(entries_view(d@)[10] == e[10]); assert(d@[10].0@ == k); }
            if k == e[11].0 { assert(entries_view(d@)[11] == e[11]); assert(d@[11].0@ == k); }
            if k == e[12].0 { assert(entries_view(d@)[12] == e[12]); assert(d@[12].0@ == k); }
            if k == e[13].0 { assert(entries_view(d@)[13] == e[13]); assert(d@[13].0@ == k); }
            if k == e[14].0 { assert(entries_view(d@)[14] == e[14]); assert(d@[14].0@ == k); }
            if k == e[15].0 { assert(entries_view(d@)[15] == e[15]); assert(d@[15].0@ == k); }
            if k == e[16].0 { assert(entries_view(d@)[16] == e[16]); assert(d@[16].0@ == k); }
            if k == e[17].0 { assert(entries_view(d@)[17] == e[17]); assert(d@[17].0@ == k); }
            if k == e[18].0 { assert(entries_view(d@)[18] == e[18]); assert(d@[18].0@ == k); }
            if k == e[19].0 { assert(entries_view(d@)[19] == e[19]); assert(d@[19].0@ == k); }
            if k == e[20].0 { assert(entries_view(d@)[20] == e[20]); assert(d@[20].0@ == k); }
            if k == e[21].0 { assert(entries_view(d@)[21] == e[21]); assert(d@[21].0@ == k); }
            if k == e[22].0 { assert(entries_view(d@)[22] == e[22]); assert(d@[22].0@ == k); }
            if k == e[23].0 { assert(entries_view(d@)[23] == e[23]); assert(d@[23].0@ == k); }
            if k == e[24].0 { assert(entries_view(d@)[24] == e[24]); assert(d@[24].0@ == k); }
            if k == e[25].0 { assert(entries_view(d@)[25] == e[25]); assert(d@[25].0@ == k); }
            if k == e[26].0 { assert(entries_view(d@)[26] == e[26]); assert(d@[26].0@ == k); }
        }
    }
    d
}

} // verus!
