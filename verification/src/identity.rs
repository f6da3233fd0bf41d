//! Who calls the registry, and whom a record is about.
use crate::text::byte_len;
use vstd::prelude::*;

verus! {

/// An identity: a text that names a party, such as a Stellar address in its
/// string form. Two identities are the same party if their texts are equal.
///
/// A host string counts its bytes in 32 bits, and the text of every identity
/// fits into one.
#[derive(Debug, PartialEq, Eq, Hash)]
pub struct Identity {
    text: String,
}

impl View for Identity {
    type V = Seq<char>;

    closed spec fn view(&self) -> Seq<char> {
        self.text@
    }
}

impl Clone for Identity {
    fn clone(&self) -> (copy: Self)
        ensures
            copy@ == self@,
    {
        proof {
            use_type_invariant(self);
        }
        Identity { text: self.text.clone() }
    }
}

impl Identity {
    #[verifier::type_invariant]
    spec fn fits_host(self) -> bool {
        byte_len(self.text@) <= u32::MAX
    }

    /// The identity that `text` names; `None` if `text` has more bytes than
    /// a host string can hold.
    pub fn new(text: &str) -> (id: Option<Identity>)
        ensures
            match id {
                Some(id) => id@ == text@ && byte_len(text@) <= u32::MAX,
                None => byte_len(text@) > u32::MAX,
            },
    {
        if text.as_bytes().len() > u32::MAX as usize {
            None
        } else {
            Some(Identity { text: text.to_owned() })
        }
    }

    /// Whether `text` names this identity.
    pub fn is_named(&self, text: &String) -> (same: bool)
        ensures
            same == (self@ == text@),
    {
        self.text == *text
    }

    /// The text of the identity.
    pub fn as_str(&self) -> (text: &str)
        ensures
            text@ == self@,
            byte_len(text@) <= u32::MAX,
    {
        proof {
            use_type_invariant(self);
        }
        self.text.as_str()
    }
}

} // verus!
