//! What differs between the operating systems: the name under which the shared object
//! is known, the width of a wide character, and how a call reports failure.

use vstd::prelude::*;
use vstd::string::StringExecFns;
use crate::wide_text::WideEncoding;

verus! {

/// The operating system whose shared memory holds the record.
#[derive(Clone, Copy, Debug, PartialEq, Eq, Structural)]
pub enum Platform {
    /// POSIX shared memory. The object is private to one user, whose numeric id is
    /// part of its name.
    Unix { uid: u32 },
    /// A named file mapping of Windows.
    Windows,
}

/// The name of the object that producers use unless told otherwise.
pub open spec fn default_name() -> Seq<char> {
    "MumbleLink"@
}

/// The character of a decimal digit.
pub open spec fn digit(d: int) -> char {
    (48 + d) as char
}

/// A number in decimal notation, without leading zeros.
pub open spec fn decimal(n: nat) -> Seq<char>
    decreases n,
{
    if n < 10 {
        seq![digit(n as int)]
    } else {
        decimal(n / 10).push(digit((n % 10) as int))
    }
}

/// Whether a name can be handed to the operating system whole. A name ends for the
/// system at its first NUL, so one that holds a NUL cannot.
pub open spec fn usable_name(name: Seq<char>) -> bool {
    !name.contains('\0')
}

/// The name by which the operating system knows the shared object called `name`, where
/// `name` is usable.
pub open spec fn object_name(name: Seq<char>, platform: Platform) -> Seq<char> {
    match platform {
        Platform::Unix { uid } => seq!['/'] + name + seq!['.'] + decimal(uid as nat),
        Platform::Windows => name,
    }
}

impl Platform {
    /// How producers on this platform encode wide characters.
    pub open spec fn wide(self) -> WideEncoding {
        match self {
            Platform::Unix { .. } => WideEncoding::Utf32,
            Platform::Windows => WideEncoding::Utf16,
        }
    }

    /// Whether `value`, returned by the call that opens or creates the object, reports
    /// failure: a negative descriptor, or a null handle.
    pub open spec fn resource_failed(self, value: isize) -> bool {
        match self {
            Platform::Unix { .. } => value < 0,
            Platform::Windows => value == 0,
        }
    }

    /// Whether `value`, returned by the call that maps the object, reports failure:
    /// the address of all ones, or a null address.
    pub open spec fn map_failed(self, value: isize) -> bool {
        match self {
            Platform::Unix { .. } => value == -1,
            Platform::Windows => value == 0,
        }
    }

    /// The error code with which the platform refuses a name: `EINVAL` on Unix,
    /// `ERROR_INVALID_NAME` on Windows.
    pub open spec fn invalid_name_error(self) -> i32 {
        match self {
            Platform::Unix { .. } => 22,
            Platform::Windows => 123,
        }
    }

    /// Whether the object must be sized by a call of its own after it was created.
    pub open spec fn sizes_after_creation(self) -> bool {
        self is Unix
    }

    /// How producers on this platform encode wide characters.
    pub fn wide_encoding(&self) -> (wide: WideEncoding)
        ensures
            wide == self.wide(),
    {
        match self {
            Platform::Unix { .. } => WideEncoding::Utf32,
            Platform::Windows => WideEncoding::Utf16,
        }
    }

    /// Whether the value returned by the opening or creating call reports failure.
    pub fn is_resource_failure(&self, value: isize) -> (failed: bool)
        ensures
            failed == self.resource_failed(value),
    {
        match self {
            Platform::Unix { .. } => value < 0,
            Platform::Windows => value == 0,
        }
    }

    /// Whether the value returned by the mapping call reports failure.
    pub fn is_map_failure(&self, value: isize) -> (failed: bool)
        ensures
            failed == self.map_failed(value),
    {
        match self {
            Platform::Unix { .. } => value == -1,
            Platform::Windows => value == 0,
        }
    }

    /// The error code with which the platform refuses a name.
    pub fn invalid_name_code(&self) -> (code: i32)
        ensures
            code == self.invalid_name_error(),
    {
        match self {
            Platform::Unix { .. } => 22,
            Platform::Windows => 123,
        }
    }

    /// The name by which the operating system knows the shared object called `name`:
    /// on Unix `name` between a slash and the user's id, on Windows `name` itself. A
    /// name that holds a NUL names no object.
    pub fn object_name(&self, name: &str) -> (full: Option<String>)
        ensures
            full is Some <==> usable_name(name@),
            full matches Some(f) ==> f@ == object_name(name@, *self) && usable_name(f@),
    {
        if is_usable_name(name) {
            proof {
                lemma_object_name_is_usable(name@, *self);
            }
            Some(self.full_name(name))
        } else {
            None
        }
    }

    /// Puts the full name together.
    pub(crate) fn full_name(&self, name: &str) -> (full: String)
        ensures
            full@ == object_name(name@, *self),
    {
        match self {
            Platform::Unix { uid } => {
                let mut full = String::new();
                full.push('/');
                full.append(name);
                full.push('.');
                push_decimal(&mut full, *uid);
                full
            },
            Platform::Windows => String::from_str(name),
        }
    }
}

/// Whether `name` can be handed to the operating system whole.
pub fn is_usable_name(name: &str) -> (usable: bool)
    ensures
        usable == usable_name(name@),
{
    for c in iter: name.chars()
        invariant
            iter.seq() == name@,
            forall|j: int| 0 <= j < iter.index() ==> name@[j] != '\0',
    {
        if c == '\0' {
            return false;
        }
    }
    true
}

/// Appends `n` in decimal notation.
fn push_decimal(text: &mut String, n: u32)
    ensures
        final(text)@ == old(text)@ + decimal(n as nat),
    decreases n,
{
    if n >= 10 {
        push_decimal(text, n / 10);
    }
    let d: u8 = (n % 10) as u8;
    let ch: char = (48u8 + d) as char;
    text.push(ch);
}

/// No digit of a number is a NUL.
pub proof fn lemma_decimal_is_usable(n: nat)
    ensures
        usable_name(decimal(n)),
    decreases n,
{
    if n >= 10 {
        lemma_decimal_is_usable(n / 10);
    }
}

/// The usual name is usable, and what is made of a usable name is usable: no request
/// is ever made under a name that the operating system would read only in part.
pub proof fn lemma_object_name_is_usable(name: Seq<char>, platform: Platform)
    ensures
        usable_name(default_name()),
        usable_name(name) ==> usable_name(object_name(name, platform)),
{
    reveal_strlit("MumbleLink");
    if let Platform::Unix { uid } = platform {
        lemma_decimal_is_usable(uid as nat);
    }
}

} // verus!
