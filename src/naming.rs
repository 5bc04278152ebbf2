//! The names of the artifacts: the ciphertext and the key are named after the
//! source by a suffix, and decryption writes to the ciphertext's name without
//! its suffix.
use vstd::prelude::*;
use vstd::string::StringExecFns;

verus! {

/// The suffix of a ciphertext artifact.
pub const EXT_LOCK: &'static str = ".lock";

/// The suffix of a key artifact.
pub const EXT_KEY: &'static str = ".key";

/// The ciphertext suffix as characters.
pub open spec fn lock_ext() -> Seq<char> {
    seq!['.', 'l', 'o', 'c', 'k']
}

/// The key suffix as characters.
pub open spec fn key_ext() -> Seq<char> {
    seq!['.', 'k', 'e', 'y']
}

/// Whether `s` ends with `suffix`.
pub open spec fn ends_with(s: Seq<char>, suffix: Seq<char>) -> bool {
    suffix.len() <= s.len() && s.subrange(s.len() - suffix.len(), s.len() as int) == suffix
}

/// `s` with the ciphertext suffix taken off its end once, where it is there.
pub open spec fn strip_lock(s: Seq<char>) -> Seq<char> {
    if ends_with(s, lock_ext()) {
        s.subrange(0, s.len() - lock_ext().len())
    } else {
        s
    }
}

/// Relies on str::strip_suffix: `Some` of what stands before the suffix where
/// `s` ends with it, else `None`.
#[verifier::external_body]
fn strip_suffix<'a>(s: &'a str, suffix: &str) -> (r: Option<&'a str>)
    ensures
        match r {
            Some(p) => s@ == p@ + suffix@,
            None => !ends_with(s@, suffix@),
        },
{
    s.strip_suffix(suffix)
}

/// The name of the ciphertext artifact of `src`: `src` followed by the
/// ciphertext suffix.
pub fn cipher_path(src: &str) -> (r: String)
    ensures
        r@ == src@ + lock_ext(),
{
    proof {
        reveal_strlit(".lock");
    }
    let mut r = src.to_owned();
    r.append(EXT_LOCK);
    r
}

/// The name of the key artifact of `src`: `src` followed by the key suffix.
pub fn key_path(src: &str) -> (r: String)
    ensures
        r@ == src@ + key_ext(),
{
    proof {
        reveal_strlit(".key");
    }
    let mut r = src.to_owned();
    r.append(EXT_KEY);
    r
}

/// The name that decrypting `cipher` writes to: `cipher` without the
/// ciphertext suffix at its end, or `cipher` itself where it has none.
pub fn plain_path(cipher: &str) -> (r: String)
    ensures
        r@ == strip_lock(cipher@),
{
    proof {
        reveal_strlit(".lock");
        assert(EXT_LOCK@ =~= lock_ext());
    }
    match strip_suffix(cipher, EXT_LOCK) {
        Some(p) => {
            assert(cipher@.subrange(0, cipher@.len() - 5) =~= p@);
            assert(cipher@.subrange(cipher@.len() - 5, cipher@.len() as int) =~= lock_ext());
            p.to_owned()
        },
        None => {
            assert(!ends_with(cipher@, lock_ext()));
            cipher.to_owned()
        },
    }
}

/// Decrypting the ciphertext artifact of `src` writes to `src` again.
pub proof fn lemma_name_round_trip(src: Seq<char>)
    ensures
        strip_lock(src + lock_ext()) == src,
{
    let s = src + lock_ext();
    assert(s.subrange(s.len() - lock_ext().len(), s.len() as int) =~= lock_ext());
    assert(s.subrange(0, s.len() - lock_ext().len()) =~= src);
}

/// A name that does not end with the ciphertext suffix is its own output name.
pub proof fn lemma_name_without_suffix(s: Seq<char>)
    requires
        !ends_with(s, lock_ext()),
    ensures
        strip_lock(s) == s,
{
}

} // verus!
