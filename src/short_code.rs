use vstd::prelude::*;

verus! {

/// The compact, non-empty token that identifies a stored URL.
///
/// Two codes are equal exactly when their strings are equal.
#[derive(Debug, Hash)]
pub struct ShortCode {
    code: String,
}

/// Why a string was not accepted as a short code.
#[derive(Debug, Clone, Copy, PartialEq, Eq, Structural)]
pub enum ShortCodeError {
    NoEmptyString,
}

impl View for ShortCode {
    type V = Seq<char>;

    closed spec fn view(&self) -> Seq<char> {
        self.code@
    }
}

impl ShortCode {
    #[verifier::type_invariant]
    spec fn inv(self) -> bool {
        self.code@.len() > 0
    }

    /// Accepts any non-empty string as a code; the empty string is refused.
    pub fn new(raw: String) -> (r: Result<ShortCode, ShortCodeError>)
        ensures
            match r {
                Ok(c) => raw@.len() > 0 && c@ == raw@,
                Err(e) => raw@.len() == 0 && e == ShortCodeError::NoEmptyString,
            },
    {
        if raw.as_str().is_empty() {
            Err(ShortCodeError::NoEmptyString)
        } else {
            Ok(ShortCode { code: raw })
        }
    }

    /// The code's text.
    pub fn as_str(&self) -> (r: &str)
        ensures
            r@ == self@,
            r@.len() > 0,
    {
        proof {
            use_type_invariant(self);
        }
        self.code.as_str()
    }

    /// The code's text, as an owned string.
    pub fn to_string(&self) -> (r: String)
        ensures
            r@ == self@,
    {
        self.code.clone()
    }

    /// Gives up the code, returning its text.
    pub fn into_string(self) -> (r: String)
        ensures
            r@ == self@,
    {
        self.code
    }
}

impl Clone for ShortCode {
    fn clone(&self) -> (r: Self)
        ensures
            r@ == self@,
    {
        proof {
            use_type_invariant(self);
        }
        ShortCode { code: self.code.clone() }
    }
}

impl PartialEq for ShortCode {
    fn eq(&self, other: &ShortCode) -> (r: bool) {
        self.code == other.code
    }
}

impl vstd::std_specs::cmp::PartialEqSpecImpl for ShortCode {
    open spec fn obeys_eq_spec() -> bool {
        true
    }

    open spec fn eq_spec(&self, other: &ShortCode) -> bool {
        self@ == other@
    }
}

impl Eq for ShortCode {
}

} // verus!
