//! Name validation and the two name-hashing dialects.
//!
//! The legacy dialect sums the byte values of an ASCII name and takes the
//! sum modulo ten. The modern dialect gives every supported character a
//! substitution value 0-9 (the low decimal digit of its code point), sums
//! those values, adds the static offset of the character class when one is
//! supplied, and takes the total modulo ten.

use crate::error::SectionIdError;
use vstd::prelude::*;
use vstd::utf8::encode_utf8;
use vstd::utf8::is_ascii_chars;
use vstd::utf8::is_ascii_chars_encode_utf8;

verus! {

/// Which hashing algorithm maps a name to its section ID.
#[derive(Clone, Copy, Debug, PartialEq, Eq, Structural)]
pub enum Dialect {
    /// Byte-sum hashing over ASCII names.
    Legacy,
    /// Substitution-table hashing with an optional class offset.
    Modern,
}

/// The twelve character classes of the modern dialect.
#[derive(Clone, Copy, Debug, PartialEq, Eq, Structural)]
pub enum CharacterClass {
    HUmar,
    HUnewearl,
    HUcast,
    HUcaseal,
    RAmar,
    RAmarl,
    RAcast,
    RAcaseal,
    FOmar,
    FOmarl,
    FOnewm,
    FOnewearl,
}

/// The static offset a class adds under the modern dialect, 0-9.
pub open spec fn class_offset(class: CharacterClass) -> int {
    match class {
        CharacterClass::HUmar => 0,
        CharacterClass::HUnewearl => 1,
        CharacterClass::HUcast => 2,
        CharacterClass::HUcaseal => 3,
        CharacterClass::RAmar => 8,
        CharacterClass::RAmarl => 9,
        CharacterClass::RAcast => 4,
        CharacterClass::RAcaseal => 5,
        CharacterClass::FOmar => 6,
        CharacterClass::FOmarl => 7,
        CharacterClass::FOnewm => 2,
        CharacterClass::FOnewearl => 3,
    }
}

/// The offset contributed by an optional class: its static offset when
/// one is supplied, zero when none is. The class is strictly additive.
pub open spec fn optional_offset(class: Option<CharacterClass>) -> int {
    match class {
        Some(k) => class_offset(k),
        None => 0,
    }
}

impl CharacterClass {
    /// The static offset this class adds under the modern dialect.
    pub fn offset(&self) -> (r: u32)
        ensures
            r == class_offset(*self),
            r < 10,
    {
        match *self {
            CharacterClass::HUmar => 0,
            CharacterClass::HUnewearl => 1,
            CharacterClass::HUcast => 2,
            CharacterClass::HUcaseal => 3,
            CharacterClass::RAmar => 8,
            CharacterClass::RAmarl => 9,
            CharacterClass::RAcast => 4,
            CharacterClass::RAcaseal => 5,
            CharacterClass::FOmar => 6,
            CharacterClass::FOmarl => 7,
            CharacterClass::FOnewm => 2,
            CharacterClass::FOnewearl => 3,
        }
    }
}

/// A name must hold at least one and at most twelve characters
/// (character count, not byte count).
pub open spec fn name_length_ok(s: Seq<char>) -> bool {
    1 <= s.len() <= 12
}

/// What validation asks of a name: both dialects bound the length; only
/// the legacy dialect also insists on ASCII.
pub open spec fn name_ok(s: Seq<char>, dialect: Dialect) -> bool {
    match dialect {
        Dialect::Legacy => name_length_ok(s) && is_ascii_chars(s),
        Dialect::Modern => name_length_ok(s),
    }
}

/// The error validation reports for a name it rejects: emptiness first,
/// then length, then (legacy only) the ASCII constraint.
pub open spec fn name_error(s: Seq<char>) -> SectionIdError {
    if s.len() == 0 {
        SectionIdError::EmptyName
    } else if s.len() > 12 {
        SectionIdError::NameTooLong
    } else {
        SectionIdError::NonAsciiCharacter
    }
}

/// Confirms that a name meets the dialect's constraints: non-empty, at
/// most twelve characters, and ASCII-only for the legacy dialect. The
/// modern dialect is constrained by length alone; its per-character
/// support is checked by the hash itself.
pub fn validate_name(name: &str, dialect: Dialect) -> (r: Result<(), SectionIdError>)
    ensures
        r is Ok <==> name_ok(name@, dialect),
        r is Err ==> r->Err_0 == name_error(name@),
{
    let n: usize = name.unicode_len();
    if n == 0 {
        return Err(SectionIdError::EmptyName);
    }
    if n > 12 {
        return Err(SectionIdError::NameTooLong);
    }
    match dialect {
        Dialect::Legacy => {
            if name.is_ascii() {
                Ok(())
            } else {
                Err(SectionIdError::NonAsciiCharacter)
            }
        },
        Dialect::Modern => Ok(()),
    }
}

/// The sum of the code points of a name's characters. For ASCII text
/// each character's code point is exactly its byte value.
pub open spec fn char_code_sum(s: Seq<char>) -> int
    decreases s.len(),
{
    if s.len() == 0 {
        0
    } else {
        char_code_sum(s.drop_last()) + s.last() as int
    }
}

/// The legacy section ID of a name: byte sum modulo ten.
pub open spec fn legacy_digit(s: Seq<char>) -> int {
    char_code_sum(s) % 10
}

/// The sum of the byte values of a byte sequence.
pub open spec fn byte_sum(b: Seq<u8>) -> int
    decreases b.len(),
{
    if b.len() == 0 {
        0
    } else {
        byte_sum(b.drop_last()) + b.last() as int
    }
}

/// For sequences that agree pointwise (bytes standing for ASCII
/// characters), the two sums agree.
proof fn lemma_matching_sums(s: Seq<char>, b: Seq<u8>)
    requires
        b.len() == s.len(),
        forall|i: int| 0 <= i < s.len() ==> #[trigger] s[i] as u8 == b[i],
        is_ascii_chars(s),
    ensures
        char_code_sum(s) == byte_sum(b),
    decreases s.len(),
{
    if s.len() > 0 {
        assert(forall|i: int|
            0 <= i < s.len() - 1 ==> #[trigger] s.drop_last()[i] as u8 == b.drop_last()[i]);
        lemma_matching_sums(s.drop_last(), b.drop_last());
        assert(s.last() as u8 == b.last());
        assert(s.last() as int == b.last() as int);
    }
}

/// The legacy hash really is a sum of byte values: for an ASCII name the
/// character-code sum it is specified over equals the byte sum of the
/// name's UTF-8 encoding.
pub proof fn lemma_char_sum_is_byte_sum(s: Seq<char>)
    requires
        is_ascii_chars(s),
    ensures
        char_code_sum(s) == byte_sum(encode_utf8(s)),
{
    is_ascii_chars_encode_utf8(s);
    lemma_matching_sums(s, encode_utf8(s));
}

/// Calculates the raw legacy section ID 0-9 of a name: the sum of its
/// byte values, modulo ten. Rejects empty, over-long and non-ASCII names
/// with the matching error.
pub fn calculate_section_id(name: &str) -> (r: Result<u32, SectionIdError>)
    ensures
        r is Ok <==> name_ok(name@, Dialect::Legacy),
        r is Ok ==> r->Ok_0 == legacy_digit(name@) && r->Ok_0 < 10,
        r is Err ==> r->Err_0 == name_error(name@),
{
    match validate_name(name, Dialect::Legacy) {
        Err(e) => Err(e),
        Ok(()) => {
            let n: usize = name.unicode_len();
            let mut sum: u32 = 0;
            let mut i: usize = 0;
            while i < n
                invariant
                    is_ascii_chars(name@),
                    n == name@.len(),
                    n <= 12,
                    i <= n,
                    sum == char_code_sum(name@.take(i as int)),
                    sum <= 127 * i,
                decreases n - i,
            {
                let c: char = name.get_char(i);
                proof {
                    assert('\0' <= name@[i as int] <= '\u{7f}');
                    assert(name@.take(i as int + 1).drop_last() =~= name@.take(i as int));
                }
                sum = sum + c as u32;
                i = i + 1;
            }
            proof {
                assert(name@.take(n as int) =~= name@);
            }
            Ok(sum % 10)
        },
    }
}

/// Whether the modern dialect's substitution table has an entry for `c`:
/// letters, digits, the space, and a fixed set of punctuation marks.
pub open spec fn char_supported(c: char) -> bool {
    ('A' <= c && c <= 'Z') || ('a' <= c && c <= 'z') || ('0' <= c && c <= '9') || c == ' ' || c
        == '!' || c == '\'' || c == ',' || c == '-' || c == '.' || c == '?' || c == '_'
}

/// The substitution value of a supported character: the low decimal
/// digit of its code point, hence always 0-9.
pub open spec fn char_weight(c: char) -> int {
    (c as int) % 10
}

/// The sum of the substitution values of a name's characters.
pub open spec fn weight_sum(s: Seq<char>) -> int
    decreases s.len(),
{
    if s.len() == 0 {
        0
    } else {
        weight_sum(s.drop_last()) + char_weight(s.last())
    }
}

/// Whether every character of a name has a substitution value.
pub open spec fn all_chars_supported(s: Seq<char>) -> bool {
    forall|i: int| 0 <= i < s.len() ==> char_supported(#[trigger] s[i])
}

/// The modern section ID of a name under a given class offset.
pub open spec fn modern_digit(s: Seq<char>, offset: int) -> int {
    (weight_sum(s) + offset) % 10
}

/// What the modern hash asks of a name: bounded length and a substitution
/// value for every character.
pub open spec fn modern_name_ok(s: Seq<char>) -> bool {
    name_length_ok(s) && all_chars_supported(s)
}

/// The leftmost character of `s` without a substitution value; meaningful
/// only when one exists.
pub open spec fn first_unsupported(s: Seq<char>) -> char
    decreases s.len(),
{
    if s.len() == 0 {
        ' '
    } else if !char_supported(s.first()) {
        s.first()
    } else {
        first_unsupported(s.drop_first())
    }
}

/// The error the modern hash reports for a name it rejects: emptiness
/// first, then length, then the first unsupported character.
pub open spec fn modern_error(s: Seq<char>) -> SectionIdError {
    if s.len() == 0 {
        SectionIdError::EmptyName
    } else if s.len() > 12 {
        SectionIdError::NameTooLong
    } else {
        SectionIdError::UnsupportedCharacter(first_unsupported(s))
    }
}

proof fn lemma_first_unsupported(s: Seq<char>, i: int)
    requires
        0 <= i < s.len(),
        forall|j: int| 0 <= j < i ==> char_supported(#[trigger] s[j]),
        !char_supported(s[i]),
    ensures
        first_unsupported(s) == s[i],
    decreases i,
{
    if i == 0 {
        assert(s.first() == s[0]);
    } else {
        assert(char_supported(s.first()));
        assert(forall|j: int|
            0 <= j < i - 1 ==> char_supported(#[trigger] s.drop_first()[j]));
        lemma_first_unsupported(s.drop_first(), i - 1);
        assert(s.drop_first()[i - 1] == s[i]);
    }
}

/// The substitution table of the modern dialect: the value of a supported
/// character, or nothing for a character outside the enumerated set —
/// never a silent default.
pub fn char_value(c: char) -> (r: Option<u32>)
    ensures
        r is Some <==> char_supported(c),
        r is Some ==> r->Some_0 == char_weight(c) && r->Some_0 < 10,
{
    let supported: bool = ('A' <= c && c <= 'Z') || ('a' <= c && c <= 'z') || ('0' <= c && c
        <= '9') || c == ' ' || c == '!' || c == '\'' || c == ',' || c == '-' || c == '.' || c == '?'
        || c == '_';
    if supported {
        Some((c as u32) % 10)
    } else {
        None
    }
}

/// Calculates the modern section ID 0-9 of a name: the sum of the
/// substitution values of its characters, plus the class offset when a
/// class is supplied, modulo ten. Rejects empty and over-long names, and
/// names holding a character outside the substitution table, with the
/// matching error.
pub fn modern_section_id(name: &str, class: Option<CharacterClass>) -> (r: Result<
    u32,
    SectionIdError,
>)
    ensures
        r is Ok <==> modern_name_ok(name@),
        r is Ok ==> r->Ok_0 == modern_digit(name@, optional_offset(class)) && r->Ok_0 < 10,
        r is Err ==> r->Err_0 == modern_error(name@),
{
    match validate_name(name, Dialect::Modern) {
        Err(e) => Err(e),
        Ok(()) => {
            let n: usize = name.unicode_len();
            let mut sum: u32 = 0;
            let mut i: usize = 0;
            while i < n
                invariant
                    n == name@.len(),
                    1 <= n <= 12,
                    i <= n,
                    forall|j: int| 0 <= j < i ==> char_supported(#[trigger] name@[j]),
                    sum == weight_sum(name@.take(i as int)),
                    sum <= 9 * i,
                decreases n - i,
            {
                let c: char = name.get_char(i);
                match char_value(c) {
                    None => {
                        proof {
                            lemma_first_unsupported(name@, i as int);
                        }
                        return Err(SectionIdError::UnsupportedCharacter(c));
                    },
                    Some(w) => {
                        proof {
                            assert(name@.take(i as int + 1).drop_last() =~= name@.take(i as int));
                        }
                        sum = sum + w;
                    },
                }
                i = i + 1;
            }
            proof {
                assert(name@.take(n as int) =~= name@);
            }
            let offset: u32 = match class {
                Some(k) => k.offset(),
                None => 0,
            };
            Ok((sum + offset) % 10)
        },
    }
}

} // verus!
