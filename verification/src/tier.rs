//! Subscription tiers as analytics keys.
//!
//! Tiers reach the shell either as the console's display names
//! ("SuperGrok Heavy") or as the keys of a token claim ("supergrok_heavy");
//! both must land on one stable lower-case, underscore-separated key.

use vstd::prelude::*;
use vstd::string::StrSliceExecFns;

verus! {

/// `true` for the ASCII capitals `A` to `Z`.
pub open spec fn is_ascii_upper(c: char) -> bool {
    65 <= (c as u32) && (c as u32) <= 90
}

/// The ASCII lower-case form of `c`; every other character is kept.
pub open spec fn ascii_lower(c: char) -> char {
    if is_ascii_upper(c) {
        ((c as u32) + 32) as char
    } else {
        c
    }
}

/// One character of a key: ASCII lower case, with a space turned into `_`.
pub open spec fn key_char(c: char) -> char {
    if c == ' ' {
        '_'
    } else {
        ascii_lower(c)
    }
}

/// `s` lower-cased (ASCII only) with each space replaced by `_`.
pub open spec fn snake_key(s: Seq<char>) -> Seq<char> {
    s.map_values(|c: char| key_char(c))
}

/// `s` holds no ASCII capital and no space.
pub open spec fn is_snake_key(s: Seq<char>) -> bool {
    forall|i: int| 0 <= i < s.len() ==> !is_ascii_upper(#[trigger] s[i]) && s[i] != ' '
}

/// `t` is the display name or claim key of one of the known tiers.
pub open spec fn known_tier_name(t: Seq<char>) -> bool {
    ||| t == "SuperGrok Heavy"@ || t == "supergrok_heavy"@
    ||| t == "SuperGrok Plus"@ || t == "supergrok_plus"@
    ||| t == "SuperGrok"@ || t == "supergrok"@
    ||| t == "SuperGrok Lite"@ || t == "supergrok_lite"@
    ||| t == "X Premium+"@ || t == "x_premium_plus"@
    ||| t == "X Premium"@ || t == "x_premium"@
    ||| t == "X Basic"@ || t == "x_basic"@
    ||| t == "Free"@ || t == "free"@
    ||| t == "API Key"@ || t == "api_key"@
}

/// The key of a tier: the display name or claim key of a known tier maps to
/// that tier's key, anything else to its `snake_key`.
pub open spec fn tier_key(t: Seq<char>) -> Seq<char> {
    if t == "SuperGrok Heavy"@ || t == "supergrok_heavy"@ {
        "supergrok_heavy"@
    } else if t == "SuperGrok Plus"@ || t == "supergrok_plus"@ {
        "supergrok_plus"@
    } else if t == "SuperGrok"@ || t == "supergrok"@ {
        "supergrok"@
    } else if t == "SuperGrok Lite"@ || t == "supergrok_lite"@ {
        "supergrok_lite"@
    } else if t == "X Premium+"@ || t == "x_premium_plus"@ {
        "x_premium_plus"@
    } else if t == "X Premium"@ || t == "x_premium"@ {
        "x_premium"@
    } else if t == "X Basic"@ || t == "x_basic"@ {
        "x_basic"@
    } else if t == "Free"@ || t == "free"@ {
        "free"@
    } else if t == "API Key"@ || t == "api_key"@ {
        "api_key"@
    } else {
        snake_key(t)
    }
}

/// Appends `c` to `s` (std's `String::push`).
#[verifier::external_body]
fn push_char(s: &mut String, c: char)
    ensures
        final(s)@ == old(s)@.push(c),
{
    s.push(c);
}

/// Whether `a` and `b` hold the same characters.
fn same_text(a: &str, b: &str) -> (r: bool)
    ensures
        r == (a@ == b@),
{
    let n = a.unicode_len();
    if n != b.unicode_len() {
        return false;
    }
    let mut i: usize = 0;
    while i < n
        invariant
            n == a@.len(),
            n == b@.len(),
            i <= n,
            forall|j: int| 0 <= j < i ==> a@[j] == b@[j],
        decreases n - i,
    {
        if a.get_char(i) != b.get_char(i) {
            return false;
        }
        i = i + 1;
    }
    assert(a@ =~= b@);
    true
}

/// The key character of `c`.
fn to_key_char(c: char) -> (k: char)
    ensures
        k == key_char(c),
{
    if c == ' ' {
        '_'
    } else {
        let code: u32 = c as u32;
        if 65 <= code && code <= 90 {
            let lower: u8 = (code + 32) as u8;
            lower as char
        } else {
            c
        }
    }
}

/// `snake_key` of `s`, built character by character.
fn to_snake_key(s: &str) -> (r: String)
    ensures
        r@ == snake_key(s@),
{
    let n = s.unicode_len();
    let mut out = String::new();
    let mut i: usize = 0;
    while i < n
        invariant
            n == s@.len(),
            i <= n,
            out@ =~= snake_key(s@).subrange(0, i as int),
        decreases n - i,
    {
        let c = s.get_char(i);
        let k = to_key_char(c);
        push_char(&mut out, k);
        i = i + 1;
    }
    assert(snake_key(s@).subrange(0, n as int) =~= snake_key(s@));
    out
}

/// Normalize a subscription tier to its lower-case, underscore-separated key.
///
/// Console display names ("SuperGrok Heavy") and token-claim keys
/// ("supergrok_heavy") of the known tiers map to the same key; "API Key" is a
/// segment of its own, never "free". Any other tier is lower-cased (ASCII) with
/// each space turned into `_`.
pub fn normalize_tier(tier: &str) -> (key: String)
    ensures
        key@ == tier_key(tier@),
        !known_tier_name(tier@) ==> key@.len() == tier@.len() && forall|i: int|
            0 <= i < tier@.len() ==> #[trigger] key@[i] == key_char(tier@[i]),
{
    if same_text(tier, "SuperGrok Heavy") || same_text(tier, "supergrok_heavy") {
        "supergrok_heavy".to_owned()
    } else if same_text(tier, "SuperGrok Plus") || same_text(tier, "supergrok_plus") {
        "supergrok_plus".to_owned()
    } else if same_text(tier, "SuperGrok") || same_text(tier, "supergrok") {
        "supergrok".to_owned()
    } else if same_text(tier, "SuperGrok Lite") || same_text(tier, "supergrok_lite") {
        "supergrok_lite".to_owned()
    } else if same_text(tier, "X Premium+") || same_text(tier, "x_premium_plus") {
        "x_premium_plus".to_owned()
    } else if same_text(tier, "X Premium") || same_text(tier, "x_premium") {
        "x_premium".to_owned()
    } else if same_text(tier, "X Basic") || same_text(tier, "x_basic") {
        "x_basic".to_owned()
    } else if same_text(tier, "Free") || same_text(tier, "free") {
        "free".to_owned()
    } else if same_text(tier, "API Key") || same_text(tier, "api_key") {
        "api_key".to_owned()
    } else {
        proof {
            lemma_unknown_tier_key_is_charwise(tier@);
        }
        to_snake_key(tier)
    }
}


/// `snake_key` always yields a snake key.
pub proof fn lemma_snake_key_is_snake_key(s: Seq<char>)
    ensures
        is_snake_key(snake_key(s)),
{
    assert forall|i: int| 0 <= i < snake_key(s).len() implies !is_ascii_upper(
        #[trigger] snake_key(s)[i],
    ) && snake_key(s)[i] != ' ' by {
        let c = s[i];
        assert(snake_key(s)[i] == key_char(c));
    }
}

/// Every tier key is a snake key: no ASCII capital and no space survives
/// normalisation.
pub proof fn lemma_tier_key_is_snake_key(t: Seq<char>)
    ensures
        is_snake_key(tier_key(t)),
{
    reveal_strlit("SuperGrok Heavy");
    reveal_strlit("supergrok_heavy");
    reveal_strlit("SuperGrok Plus");
    reveal_strlit("supergrok_plus");
    reveal_strlit("SuperGrok");
    reveal_strlit("supergrok");
    reveal_strlit("SuperGrok Lite");
    reveal_strlit("supergrok_lite");
    reveal_strlit("X Premium+");
    reveal_strlit("x_premium_plus");
    reveal_strlit("X Premium");
    reveal_strlit("x_premium");
    reveal_strlit("X Basic");
    reveal_strlit("x_basic");
    reveal_strlit("Free");
    reveal_strlit("free");
    reveal_strlit("API Key");
    reveal_strlit("api_key");
    lemma_snake_key_is_snake_key(t);
    assert(is_snake_key("supergrok_heavy"@));
    assert(is_snake_key("supergrok_plus"@));
    assert(is_snake_key("supergrok"@));
    assert(is_snake_key("supergrok_lite"@));
    assert(is_snake_key("x_premium_plus"@));
    assert(is_snake_key("x_premium"@));
    assert(is_snake_key("x_basic"@));
    assert(is_snake_key("free"@));
    assert(is_snake_key("api_key"@));
}

/// A snake key is its own tier key.
pub proof fn lemma_snake_key_is_its_own_tier_key(k: Seq<char>)
    requires
        is_snake_key(k),
    ensures
        tier_key(k) == k,
{
    reveal_strlit("SuperGrok Heavy");
    reveal_strlit("supergrok_heavy");
    reveal_strlit("SuperGrok Plus");
    reveal_strlit("supergrok_plus");
    reveal_strlit("SuperGrok");
    reveal_strlit("supergrok");
    reveal_strlit("SuperGrok Lite");
    reveal_strlit("supergrok_lite");
    reveal_strlit("X Premium+");
    reveal_strlit("x_premium_plus");
    reveal_strlit("X Premium");
    reveal_strlit("x_premium");
    reveal_strlit("X Basic");
    reveal_strlit("x_basic");
    reveal_strlit("Free");
    reveal_strlit("free");
    reveal_strlit("API Key");
    reveal_strlit("api_key");
    if k.len() > 0 {
        let c = k[0];
        assert(!is_ascii_upper(c));
    }
    assert forall|i: int| 0 <= i < k.len() implies #[trigger] snake_key(k)[i] == k[i] by {
        assert(!is_ascii_upper(k[i]) && k[i] != ' ');
    }
    assert(snake_key(k) =~= k);
}

/// Normalising a tier twice gives what normalising it once gives.
pub proof fn lemma_tier_key_idempotent(t: Seq<char>)
    ensures
        tier_key(tier_key(t)) == tier_key(t),
{
    lemma_tier_key_is_snake_key(t);
    lemma_snake_key_is_its_own_tier_key(tier_key(t));
}

/// `snake_key` works character by character: it keeps the length and maps
/// each character by `key_char`, inserting and dropping nothing.
pub proof fn lemma_snake_key_is_charwise(s: Seq<char>)
    ensures
        snake_key(s).len() == s.len(),
        forall|i: int| 0 <= i < s.len() ==> #[trigger] snake_key(s)[i] == key_char(s[i]),
{
}

/// A tier that is no known name is keyed character by character: same
/// length, each character lower-cased (ASCII) and each space turned into `_`.
pub proof fn lemma_unknown_tier_key_is_charwise(t: Seq<char>)
    requires
        !known_tier_name(t),
    ensures
        tier_key(t).len() == t.len(),
        forall|i: int| 0 <= i < t.len() ==> #[trigger] tier_key(t)[i] == key_char(t[i]),
{
    lemma_snake_key_is_charwise(t);
}

/// `key_char` lower-cases an ASCII capital by moving it 32 code points up,
/// turns a space into `_`, and keeps every other character.
pub proof fn lemma_key_char(c: char)
    ensures
        is_ascii_upper(c) ==> key_char(c) as u32 == c as u32 + 32,
        c == ' ' ==> key_char(c) == '_',
        !is_ascii_upper(c) && c != ' ' ==> key_char(c) == c,
{
}

} // verus!
