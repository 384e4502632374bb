//! Strings that must not show up in logs.
use vstd::prelude::*;

verus! {

/// A sensitive string. Its display form is redacted; `expose` gives the content
/// where it is used.
#[derive(Debug, Clone, PartialEq, Eq)]
pub struct SecretString(String);

impl View for SecretString {
    type V = Seq<char>;

    closed spec fn view(&self) -> Seq<char> {
        self.0@
    }
}

impl SecretString {
    pub fn new(s: String) -> (r: Self)
        ensures
            r@ == s@,
    {
        SecretString(s)
    }

    /// The content of the secret.
    pub fn expose(&self) -> (r: &str)
        ensures
            r@ == self@,
    {
        self.0.as_str()
    }

    pub fn is_empty(&self) -> (r: bool)
        ensures
            r == (self@.len() == 0),
    {
        self.0.as_str().is_empty()
    }

    /// The display form, the same for every secret.
    pub fn to_string(&self) -> (r: String)
        ensures
            r@ == "[REDACTED]"@,
    {
        "[REDACTED]".to_string()
    }

    /// A copy of the secret.
    pub fn copy(&self) -> (r: Self)
        ensures
            r@ == self@,
    {
        SecretString(self.0.clone())
    }
}

impl Default for SecretString {
    fn default() -> (r: Self)
        ensures
            r@ == Seq::<char>::empty(),
    {
        SecretString(String::new())
    }
}

impl From<String> for SecretString {
    fn from(s: String) -> (r: Self)
        ensures
            r@ == s@,
    {
        SecretString(s)
    }
}

impl vstd::std_specs::convert::FromSpecImpl<String> for SecretString {
    open spec fn obeys_from_spec() -> bool {
        true
    }

    closed spec fn from_spec(s: String) -> SecretString {
        SecretString(s)
    }
}

/// A text that became a secret is what the secret holds.
pub proof fn law_secrets_hold_their_text(s: String)
    ensures
        <SecretString as vstd::std_specs::convert::FromSpec<String>>::from_spec(s)@ == s@,
{
}

impl std::str::FromStr for SecretString {
    type Err = std::convert::Infallible;

    /// A secret of any text, as it stands.
    fn from_str(s: &str) -> (r: Result<SecretString, std::convert::Infallible>)
        ensures
            r matches Ok(x) && x@ == s@,
    {
        Ok(SecretString(s.to_string()))
    }
}

/// A secret shows nothing of itself: two secrets, whatever they hold, look the
/// same. What was put in comes out where it is used.
pub proof fn law_secrets_show_nothing(
    text: String,
    s: SecretString,
    other: SecretString,
    exposed: &str,
    x: String,
    y: String,
    empty: bool,
)
    requires
        call_ensures(SecretString::new, (text,), s),
        call_ensures(SecretString::expose, (&s,), exposed),
        call_ensures(SecretString::is_empty, (&s,), empty),
        call_ensures(SecretString::to_string, (&s,), x),
        call_ensures(SecretString::to_string, (&other,), y),
    ensures
        exposed@ == text@,
        empty <==> text@.len() == 0,
        x@ == y@,
        x@ == "[REDACTED]"@,
{
}

/// A copy of a secret holds the same, and a secret of nothing is empty.
pub proof fn law_copied_secrets_hold_the_same(
    s: SecretString,
    c: SecretString,
    none: SecretString,
    x: &str,
    y: &str,
    empty: bool,
)
    requires
        call_ensures(SecretString::copy, (&s,), c),
        call_ensures(SecretString::default, (), none),
        call_ensures(SecretString::expose, (&s,), x),
        call_ensures(SecretString::expose, (&c,), y),
        call_ensures(SecretString::is_empty, (&none,), empty),
    ensures
        x@ == y@,
        empty,
{
}

} // verus!
