//! Locating the read-identifier column of a sequencing summary header row.

use vstd::prelude::*;
use vstd::string::StringExecFns;

verus! {

/// The bytes of the column name that keys a sequencing summary: `read_id`.
pub open spec fn read_id_key() -> Seq<u8> {
    seq![114u8, 101u8, 97u8, 100u8, 95u8, 105u8, 100u8]
}

fn is_read_id_field(field: &Vec<u8>) -> (r: bool)
    ensures
        r == (field@ == read_id_key()),
{
    if field.len() != 7 {
        return false;
    }
    let r = field[0] == 114 && field[1] == 101 && field[2] == 97 && field[3] == 100 && field[4]
        == 95 && field[5] == 105 && field[6] == 100;
    proof {
        if r {
            assert(field@ =~= read_id_key());
        }
    }
    r
}

/// Find the first header field named `read_id`, or report that no field
/// matches.
pub fn get_key_col(fields: &Vec<Vec<u8>>) -> (r: Result<usize, String>)
    ensures
        match r {
            Ok(i) => i < fields@.len() && fields@[i as int]@ == read_id_key() && forall|j: int|
                0 <= j < i ==> fields@[j]@ != read_id_key(),
            Err(e) => (forall|j: int|
                0 <= j < fields@.len() ==> fields@[j]@ != read_id_key()) && e@
                == "Could not find field"@,
        },
{
    let mut i: usize = 0;
    while i < fields.len()
        invariant
            i <= fields@.len(),
            forall|j: int| 0 <= j < i ==> fields@[j]@ != read_id_key(),
        decreases fields@.len() - i,
    {
        if is_read_id_field(&fields[i]) {
            return Ok(i);
        }
        i += 1;
    }
    Err(String::from_str("Could not find field"))
}

} // verus!
