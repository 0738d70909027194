//! Choosing an avatar by number or by name.

use vstd::prelude::*;
use vstd::string::*;

verus! {

/// Why a text names no avatar.
#[derive(Clone, Copy, Debug, PartialEq, Eq, Structural)]
pub enum AvatarError {
    /// The text is neither a number that fits in a byte nor an avatar's name.
    UnknownAvatar,
}

impl AvatarError {
    /// The text shown to the player: the names that are accepted.
    pub fn message(&self) -> (text: String)
        ensures
            text@ == "avatar options: frog,panda,turkey,pig,hamster,chicken,bunny"@,
    {
        String::from_str("avatar options: frog,panda,turkey,pig,hamster,chicken,bunny")
    }
}

/// How many avatars there are.
pub const AVATAR_COUNT: u8 = 7;

/// The avatar that is shown for the number `avatar_id`: the one with that
/// number, or the first where there is none.
pub fn avatar_slot(avatar_id: u8) -> (slot: usize)
    ensures
        slot == if avatar_id < AVATAR_COUNT { avatar_id as int } else { 0 },
{
    if avatar_id < AVATAR_COUNT {
        avatar_id as usize
    } else {
        0
    }
}

pub open spec fn is_digit(c: char) -> bool {
    '0' <= c <= '9'
}

pub open spec fn all_digits(s: Seq<char>) -> bool {
    forall|i: int| 0 <= i < s.len() ==> is_digit(#[trigger] s[i])
}

/// The number that a string of decimal digits writes.
pub open spec fn digits_value(s: Seq<char>) -> nat
    decreases s.len(),
{
    if s.len() == 0 {
        0
    } else {
        digits_value(s.drop_last()) * 10 + (s.last() as u32 - '0' as u32) as nat
    }
}

/// A text without the plus sign that may lead it.
pub open spec fn unsigned_part(s: Seq<char>) -> Seq<char> {
    if s.len() > 0 && s[0] == '+' {
        s.subrange(1, s.len() as int)
    } else {
        s
    }
}

/// The byte written by `s` in decimal: an optional plus sign, then one or
/// more digits whose value is at most 255. Any other text writes none.
pub open spec fn decimal_u8(s: Seq<char>) -> Option<u8> {
    let digits = unsigned_part(s);
    if digits.len() > 0 && all_digits(digits) && digits_value(digits) <= 255 {
        Some(digits_value(digits) as u8)
    } else {
        None
    }
}

/// The number of the avatar called `s`.
pub open spec fn named_avatar(s: Seq<char>) -> Option<u8> {
    if s == "frog"@ {
        Some(0u8)
    } else if s == "panda"@ {
        Some(1u8)
    } else if s == "turkey"@ {
        Some(2u8)
    } else if s == "pig"@ {
        Some(3u8)
    } else if s == "hamster"@ {
        Some(4u8)
    } else if s == "chicken"@ {
        Some(5u8)
    } else if s == "bunny"@ {
        Some(6u8)
    } else {
        None
    }
}

/// What a text chooses: the byte it writes in decimal if it writes one,
/// else the number of the avatar it names.
pub open spec fn avatar_choice(s: Seq<char>) -> Result<u8, AvatarError> {
    match decimal_u8(s) {
        Some(v) => Ok(v),
        None => match named_avatar(s) {
            Some(v) => Ok(v),
            None => Err(AvatarError::UnknownAvatar),
        },
    }
}

proof fn lemma_digits_value_prefix(s: Seq<char>, k: int)
    requires
        0 <= k <= s.len(),
        all_digits(s),
    ensures
        digits_value(s.subrange(0, k)) <= digits_value(s),
    decreases s.len() - k,
{
    if k == s.len() {
        assert(s.subrange(0, k) =~= s);
    } else {
        lemma_digits_value_prefix(s, k + 1);
        let longer = s.subrange(0, k + 1);
        assert(longer.drop_last() =~= s.subrange(0, k));
        assert(is_digit(s[k]));
        assert(longer.last() == s[k]);
    }
}

/// Reads a byte written in decimal.
fn parse_decimal_u8(text: &[u8], s: Ghost<Seq<char>>) -> (r: Option<u8>)
    requires
        text@.len() == s@.len(),
        forall|i: int| 0 <= i < s@.len() ==> '\0' <= #[trigger] s@[i] <= '\u{7f}' && text@[i] == s@[i] as u8,
    ensures
        r == decimal_u8(s@),
{
    let n = text.len();
    let start: usize = if n > 0 && text[0] == 43 { 1 } else { 0 };
    let ghost digits = unsigned_part(s@);
    assert(n > 0 ==> (text@[0] == 43 <==> s@[0] == '+'));
    assert(digits.len() == n - start);
    assert(forall|j: int| 0 <= j < digits.len() ==> digits[j] == s@[j + start]);
    if start == n {
        return None;
    }
    let mut acc: u16 = 0;
    let mut i: usize = start;
    assert(digits.subrange(0, 0) =~= Seq::<char>::empty());
    while i < n
        invariant
            start <= i <= n,
            n == text@.len(),
            text@.len() == s@.len(),
            digits.len() == n - start,
            digits == unsigned_part(s@),
            forall|j: int| 0 <= j < s@.len() ==> '\0' <= #[trigger] s@[j] <= '\u{7f}' && text@[j] == s@[j] as u8,
            forall|j: int| 0 <= j < digits.len() ==> digits[j] == s@[j + start],
            all_digits(digits.subrange(0, i - start)),
            acc == digits_value(digits.subrange(0, i - start)),
            acc <= 255,
        decreases n - i,
    {
        let b = text[i];
        let ghost k = i - start;
        assert(digits[k] == s@[i as int]);
        if b < 48 || b > 57 {
            assert(!is_digit(digits[k]));
            return None;
        }
        assert(is_digit(digits[k]));
        let next: u16 = acc * 10 + (b - 48) as u16;
        proof {
            let longer = digits.subrange(0, k + 1);
            assert(longer.drop_last() =~= digits.subrange(0, k));
            assert(longer.last() == digits[k]);
            assert(next == digits_value(longer));
            assert(all_digits(longer)) by {
                assert forall|j: int| 0 <= j < longer.len() implies is_digit(#[trigger] longer[j]) by {
                    if j < k {
                        assert(digits.subrange(0, k)[j] == longer[j]);
                    }
                }
            }
        }
        if next > 255 {
            proof {
                if all_digits(digits) {
                    lemma_digits_value_prefix(digits, k + 1);
                }
            }
            return None;
        }
        acc = next;
        i += 1;
    }
    assert(digits.subrange(0, i - start) =~= digits);
    Some(acc as u8)
}

/// Whether two byte strings are the same.
fn same_bytes(a: &[u8], b: &[u8]) -> (r: bool)
    ensures
        r == (a@ == b@),
{
    if a.len() != b.len() {
        return false;
    }
    let mut i: usize = 0;
    while i < a.len()
        invariant
            i <= a@.len(),
            a@.len() == b@.len(),
            forall|j: int| 0 <= j < i ==> a@[j] == b@[j],
        decreases a@.len() - i,
    {
        if a[i] != b[i] {
            return false;
        }
        i += 1;
    }
    assert(a@ =~= b@);
    true
}

/// Whether the text `s` is the ASCII name `name`.
fn is_name(s: &str, name: &str) -> (r: bool)
    requires
        s.is_ascii(),
        name.is_ascii(),
    ensures
        r == (s@ == name@),
{
    broadcast use is_ascii_spec_bytes;

    let r = same_bytes(s.as_bytes(), name.as_bytes());
    proof {
        if r {
            assert forall|i: int| 0 <= i < s@.len() implies s@[i] == name@[i] by {
                assert(s.spec_bytes()[i] == name.spec_bytes()[i]);
                assert(s@[i] as u8 == name@[i] as u8);
            }
            assert(s@ =~= name@);
        }
    }
    r
}

/// Reads an avatar's number: a byte written in decimal is taken as it is,
/// and a name gives its place in the list of avatars.
pub fn parse_avatar_id(s: &str) -> (r: Result<u8, AvatarError>)
    ensures
        r == avatar_choice(s@),
{
    broadcast use is_ascii_spec_bytes;

    proof {
        reveal_strlit("frog");
        reveal_strlit("panda");
        reveal_strlit("turkey");
        reveal_strlit("pig");
        reveal_strlit("hamster");
        reveal_strlit("chicken");
        reveal_strlit("bunny");
    }
    if !s.is_ascii() {
        proof {
            let i = choose|i: int| 0 <= i < s@.len() && !('\0' <= #[trigger] s@[i] <= '\u{7f}');
            let digits = unsigned_part(s@);
            if digits.len() == s@.len() {
                assert(!is_digit(digits[i]));
            } else {
                assert(i > 0);
                assert(!is_digit(digits[i - 1]));
            }
        }
        return Err(AvatarError::UnknownAvatar);
    }
    match parse_decimal_u8(s.as_bytes(), Ghost(s@)) {
        Some(v) => Ok(v),
        None => {
            if is_name(s, "frog") {
                Ok(0)
            } else if is_name(s, "panda") {
                Ok(1)
            } else if is_name(s, "turkey") {
                Ok(2)
            } else if is_name(s, "pig") {
                Ok(3)
            } else if is_name(s, "hamster") {
                Ok(4)
            } else if is_name(s, "chicken") {
                Ok(5)
            } else if is_name(s, "bunny") {
                Ok(6)
            } else {
                Err(AvatarError::UnknownAvatar)
            }
        },
    }
}

} // verus!
