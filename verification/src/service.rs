use vstd::prelude::*;

use crate::ids::{lemma_uuid_text_len, uuid_text, uuid_to_text, NIL_UUID};

verus! {

/// A pair of identifiers.
#[derive(Debug)]
pub struct Example {
    pub id: u128,
    pub other_id: u128,
}

impl Default for Example {
    /// Both identifiers nil.
    fn default() -> (e: Self)
        ensures
            e.id == NIL_UUID,
            e.other_id == NIL_UUID,
    {
        Example { id: NIL_UUID, other_id: NIL_UUID }
    }
}

/// The text form of a pair of identifiers: `Id=<id>,other-Id=<other_id>`.
pub open spec fn example_text(id: u128, other_id: u128) -> Seq<char> {
    "Id="@ + uuid_text(id) + ",other-Id="@ + uuid_text(other_id)
}

/// The text form of a pair is `Id=`, the 36 characters of the first id,
/// `,other-Id=` and the 36 characters of the second.
pub proof fn lemma_example_text_shape(id: u128, other_id: u128)
    ensures
        example_text(id, other_id).len() == 85,
        example_text(id, other_id).subrange(0, 3) == "Id="@,
        example_text(id, other_id).subrange(3, 39) == uuid_text(id),
        example_text(id, other_id).subrange(39, 49) == ",other-Id="@,
        example_text(id, other_id).subrange(49, 85) == uuid_text(other_id),
{
    reveal_strlit("Id=");
    reveal_strlit(",other-Id=");
    lemma_uuid_text_len(id);
    lemma_uuid_text_len(other_id);
    let t = example_text(id, other_id);
    assert(t.subrange(0, 3) =~= "Id="@);
    assert(t.subrange(3, 39) =~= uuid_text(id));
    assert(t.subrange(39, 49) =~= ",other-Id="@);
    assert(t.subrange(49, 85) =~= uuid_text(other_id));
}

impl Example {
    /// Resets the pair; it keeps both identifiers as they are.
    pub fn reset(&mut self)
        ensures
            *final(self) == *old(self),
    {
    }

    /// The text form of the pair, with both identifiers hyphenated.
    pub fn to_display_string(&self) -> (s: String)
        ensures
            s@ == example_text(self.id, self.other_id),
            s@.len() == 85,
            s@.subrange(3, 39) == uuid_text(self.id),
            s@.subrange(49, 85) == uuid_text(self.other_id),
    {
        proof {
            lemma_example_text_shape(self.id, self.other_id);
        }
        let id = uuid_to_text(self.id);
        let other = uuid_to_text(self.other_id);
        let mut s = String::from_str("Id=");
        s.append(id.as_str());
        s.append(",other-Id=");
        s.append(other.as_str());
        s
    }
}

} // verus!
