//! Function names: the unique, immutable identifier of a function.

use vstd::prelude::*;
use vstd::string::*;
use vstd::utf8::*;

verus! {

/// The longest name accepted, in characters.
pub const MAX_NAME_LEN: usize = 64;

/// The characters a name is made of: ASCII letters, digits, `-` and `_`.
pub open spec fn is_name_char(c: char) -> bool {
    ||| 'a' <= c <= 'z'
    ||| 'A' <= c <= 'Z'
    ||| '0' <= c <= '9'
    ||| c == '-'
    ||| c == '_'
}

/// The naming pattern: between one and `MAX_NAME_LEN` name characters.
pub open spec fn valid_name(s: Seq<char>) -> bool {
    &&& 1 <= s.len() <= MAX_NAME_LEN
    &&& forall|i: int| 0 <= i < s.len() ==> is_name_char(#[trigger] s[i])
}

/// Characters with the Unicode property `White_Space`.
pub open spec fn is_space(c: char) -> bool {
    ||| '\u{9}' <= c <= '\u{d}'
    ||| c == ' '
    ||| c == '\u{85}'
    ||| c == '\u{a0}'
    ||| c == '\u{1680}'
    ||| '\u{2000}' <= c <= '\u{200a}'
    ||| c == '\u{2028}'
    ||| c == '\u{2029}'
    ||| c == '\u{202f}'
    ||| c == '\u{205f}'
    ||| c == '\u{3000}'
}

/// `s` without its leading white space.
pub open spec fn trim_front(s: Seq<char>) -> Seq<char>
    decreases s.len(),
{
    if s.len() > 0 && is_space(s[0]) {
        trim_front(s.drop_first())
    } else {
        s
    }
}

/// `s` without its trailing white space.
pub open spec fn trim_back(s: Seq<char>) -> Seq<char>
    decreases s.len(),
{
    if s.len() > 0 && is_space(s.last()) {
        trim_back(s.drop_last())
    } else {
        s
    }
}

/// `s` without leading and trailing white space.
pub open spec fn trimmed(s: Seq<char>) -> Seq<char> {
    trim_back(trim_front(s))
}

/// What follows the rejected text in the message of a rejected name.
pub open spec fn invalid_name_suffix() -> Seq<char> {
    " is invalid, it can contain the following characters only [a-zA-Z0-9-_] and has 1 to 64 of them"@
}

/// The message with which a candidate name is rejected.
pub open spec fn invalid_name_message(candidate: Seq<char>) -> Seq<char> {
    candidate + invalid_name_suffix()
}

/// `str::trim`: the slice without leading and trailing characters that have
/// the Unicode property `White_Space`.
#[verifier::external_body]
fn trim(text: &str) -> (inner: &str)
    ensures
        inner@ == trimmed(text@),
{
    text.trim()
}

fn is_name_byte(b: u8) -> (ok: bool)
    ensures
        ok == is_name_char(b as char),
{
    (b >= 0x61 && b <= 0x7a) || (b >= 0x41 && b <= 0x5a) || (b >= 0x30 && b <= 0x39) || b == 0x2d
        || b == 0x5f
}

/// Tells whether `text` obeys the naming pattern.
pub fn is_valid_name(text: &str) -> (ok: bool)
    ensures
        ok == valid_name(text@),
{
    if !text.is_ascii() {
        proof {
            let i = choose|i: int| 0 <= i < text@.len() && !('\0' <= #[trigger] text@[i] <= '\u{7f}');
            assert(!is_name_char(text@[i]));
        }
        return false;
    }
    proof {
        is_ascii_chars_encode_utf8(text@);
    }
    let bytes = text.as_bytes();
    let n: usize = bytes.len();
    if n == 0 || n > MAX_NAME_LEN {
        return false;
    }
    let mut i: usize = 0;
    while i < n
        invariant
            i <= n,
            n == bytes@.len(),
            n == text@.len(),
            forall|k: int| 0 <= k < n ==> text@[k] as u8 == #[trigger] bytes@[k],
            is_ascii_chars(text@),
            forall|k: int| 0 <= k < i ==> is_name_char(#[trigger] text@[k]),
        decreases n - i,
    {
        let b: u8 = bytes[i];
        assert(text@[i as int] as u8 == bytes@[i as int]);
        assert((b as char) == text@[i as int]);
        if !is_name_byte(b) {
            return false;
        }
        i += 1;
    }
    true
}

/// A function name that obeys the naming pattern.
#[derive(Debug)]
pub struct FunctionName(String);

impl View for FunctionName {
    type V = Seq<char>;

    closed spec fn view(&self) -> Seq<char> {
        self.0@
    }
}

impl FunctionName {
    #[verifier::type_invariant]
    spec fn well_formed(self) -> bool {
        valid_name(self.0@)
    }

    /// Accepts `name`, without the white space around it, where that obeys
    /// the naming pattern, and rejects it with a message otherwise.
    pub fn validate_data(name: String) -> (r: Result<Self, String>)
        ensures
            valid_name(trimmed(name@)) ==> r is Ok && r->Ok_0@ == trimmed(name@),
            !valid_name(trimmed(name@)) ==> r is Err && r->Err_0@ == invalid_name_message(
                trimmed(name@),
            ),
    {
        let inner = trim(name.as_str());
        if is_valid_name(inner) {
            Ok(FunctionName(String::from_str(inner)))
        } else {
            Err(
                String::from_str(inner).concat(
                    " is invalid, it can contain the following characters only [a-zA-Z0-9-_] and has 1 to 64 of them",
                ),
            )
        }
    }

    /// The name as text.
    pub fn as_str(&self) -> (text: &str)
        ensures
            text@ == self@,
            valid_name(text@),
    {
        proof {
            use_type_invariant(self);
        }
        self.0.as_str()
    }

    /// Gives the name up as a `String`.
    pub fn into_string(self) -> (text: String)
        ensures
            text@ == self@,
            valid_name(text@),
    {
        proof {
            use_type_invariant(&self);
        }
        self.0
    }
}

impl TryFrom<String> for FunctionName {
    type Error = String;

    /// The same as `validate_data`.
    fn try_from(value: String) -> (r: Result<FunctionName, String>)
        ensures
            valid_name(trimmed(value@)) ==> r is Ok && r->Ok_0@ == trimmed(value@),
            !valid_name(trimmed(value@)) ==> r is Err && r->Err_0@ == invalid_name_message(
                trimmed(value@),
            ),
    {
        FunctionName::validate_data(value)
    }
}

/// What `try_from` returns is stated by its own contract, over the text of
/// the name; no law over whole values is claimed for it.
impl vstd::std_specs::convert::TryFromSpecImpl<String> for FunctionName {
    open spec fn obeys_try_from_spec() -> bool {
        false
    }

    open spec fn try_from_spec(value: String) -> Result<FunctionName, String> {
        Err(value)
    }
}

} // verus!
