//! The key registry: an immutable mapping from key id to 32-byte Ed25519
//! public key, built once from configuration entries of the form
//! `"<keyId>:<base64-public-key>"`.

use vstd::prelude::*;
use vstd::string::StrSliceExecFns;

use crate::security::crypto::{ed25519_key_well_formed, key_well_formed};
use crate::security::encoding::{base64_decode, base64_decoded};

verus! {

/// Why a configuration entry was rejected; any such rejection is fatal at
/// startup.
#[derive(Debug, PartialEq, Eq)]
pub enum ConfigError {
    /// No `:` separator in the entry.
    InvalidKeyEntry,
    /// The part after the separator is not valid base64.
    InvalidKeyBase64,
    /// The decoded key material is not exactly 32 bytes.
    InvalidKeyLength,
    /// The 32 bytes do not form a valid Ed25519 public key.
    InvalidKey,
}

impl ConfigError {
    /// The description this error prints.
    pub fn message(&self) -> (r: String)
        ensures
            r@ == config_error_message(*self),
    {
        match self {
            ConfigError::InvalidKeyEntry => "invalid key entry, use <id>:<base64> format".to_owned(),
            ConfigError::InvalidKeyBase64 => "invalid base64 in ed25519 key".to_owned(),
            ConfigError::InvalidKeyLength => "ed25519 public keys must be 32 bytes".to_owned(),
            ConfigError::InvalidKey => "invalid ed25519 public key".to_owned(),
        }
    }
}

pub open spec fn config_error_message(e: ConfigError) -> Seq<char> {
    match e {
        ConfigError::InvalidKeyEntry => "invalid key entry, use <id>:<base64> format"@,
        ConfigError::InvalidKeyBase64 => "invalid base64 in ed25519 key"@,
        ConfigError::InvalidKeyLength => "ed25519 public keys must be 32 bytes"@,
        ConfigError::InvalidKey => "invalid ed25519 public key"@,
    }
}

/// One registered key: an id and validated 32-byte public-key material.
#[derive(Debug, Clone)]
pub struct KeyEntry {
    pub key_id: String,
    pub key: Vec<u8>,
}

impl KeyEntry {
    /// The key material is 32 bytes and decompresses to a curve point.
    pub open spec fn wf(&self) -> bool {
        self.key@.len() == 32 && ed25519_key_well_formed(self.key@)
    }
}

/// The text before and after the first `:`, if there is one.
pub open spec fn split_first_colon(s: Seq<char>) -> Option<(Seq<char>, Seq<char>)>
    decreases s.len(),
{
    if s.len() == 0 {
        None
    } else if s[0] == ':' {
        Some((Seq::empty(), s.drop_first()))
    } else {
        match split_first_colon(s.drop_first()) {
            None => None,
            Some((a, b)) => Some((seq![s[0]] + a, b)),
        }
    }
}

proof fn lemma_split_first_colon_at(s: Seq<char>, i: int)
    requires
        0 <= i < s.len(),
        forall|j: int| 0 <= j < i ==> s[j] != ':',
        s[i] == ':',
    ensures
        split_first_colon(s) == Some((s.subrange(0, i), s.subrange(i + 1, s.len() as int))),
    decreases i,
{
    if i == 0 {
        assert(s.subrange(0, 0) =~= Seq::<char>::empty());
        assert(s.subrange(1, s.len() as int) =~= s.drop_first());
    } else {
        let t = s.drop_first();
        assert(forall|j: int| 0 <= j < i - 1 ==> #[trigger] t[j] == s[j + 1]);
        lemma_split_first_colon_at(t, i - 1);
        assert(t.subrange(i - 1, t.len() as int) =~= s.subrange(i, s.len() as int));
        assert(seq![s[0]] + t.subrange(0, i - 1) =~= s.subrange(0, i));
        assert(t.subrange(i, t.len() as int) =~= s.subrange(i + 1, s.len() as int));
    }
}

proof fn lemma_split_first_colon_none(s: Seq<char>)
    requires
        forall|j: int| 0 <= j < s.len() ==> s[j] != ':',
    ensures
        split_first_colon(s) is None,
    decreases s.len(),
{
    if s.len() > 0 {
        let t = s.drop_first();
        assert(forall|j: int| 0 <= j < t.len() ==> #[trigger] t[j] == s[j + 1]);
        lemma_split_first_colon_none(t);
    }
}

/// What a well-formed configuration entry denotes: its key id and the decoded,
/// validated key bytes; or the error that rejects it.
pub open spec fn parsed_entry(s: Seq<char>) -> Result<(Seq<char>, Seq<u8>), ConfigError> {
    match split_first_colon(s) {
        None => Err(ConfigError::InvalidKeyEntry),
        Some((id, enc)) => match base64_decoded(enc) {
            None => Err(ConfigError::InvalidKeyBase64),
            Some(raw) => if raw.len() != 32 {
                Err(ConfigError::InvalidKeyLength)
            } else if !ed25519_key_well_formed(raw) {
                Err(ConfigError::InvalidKey)
            } else {
                Ok((id, raw))
            },
        },
    }
}

/// Parse one configuration entry into a registry key, rejecting a malformed
/// separator, bad base64, wrong length or invalid key material.
pub fn parse_key_entry(entry: &str) -> (r: Result<KeyEntry, ConfigError>)
    ensures
        match r {
            Ok(e) => parsed_entry(entry@) == Ok::<_, ConfigError>((e.key_id@, e.key@)) && e.wf(),
            Err(err) => parsed_entry(entry@) == Err::<(Seq<char>, Seq<u8>), _>(err),
        },
{
    let n: usize = entry.unicode_len();
    let mut i: usize = 0;
    while i < n && entry.get_char(i) != ':'
        invariant
            0 <= i <= n,
            n == entry@.len(),
            forall|j: int| 0 <= j < i ==> entry@[j] != ':',
        decreases n - i,
    {
        i = i + 1;
    }
    if i == n {
        proof {
            lemma_split_first_colon_none(entry@);
        }
        return Err(ConfigError::InvalidKeyEntry);
    }
    proof {
        lemma_split_first_colon_at(entry@, i as int);
    }
    let key_id: String = entry.substring_char(0, i).to_owned();
    let encoded: &str = entry.substring_char(i + 1, n);
    let decoded = base64_decode(encoded);
    proof {
        match &decoded {
            Some(v) => {
                assert(v.deep_view() =~= v@);
                assert(base64_decoded(encoded@) == Some(v@));
            },
            None => {
                assert(base64_decoded(encoded@) is None);
            },
        }
    }
    let raw = match decoded {
        Some(raw) => raw,
        None => {
            return Err(ConfigError::InvalidKeyBase64);
        },
    };
    if raw.len() != 32 {
        return Err(ConfigError::InvalidKeyLength);
    }
    if !key_well_formed(raw.as_slice()) {
        return Err(ConfigError::InvalidKey);
    }
    Ok(KeyEntry { key_id, key: raw })
}

/// The mapping a list of entries builds: a later entry with the same id
/// replaces an earlier one.
pub open spec fn key_map(entries: Seq<KeyEntry>) -> Map<Seq<char>, Seq<u8>>
    decreases entries.len(),
{
    if entries.len() == 0 {
        Map::empty()
    } else {
        key_map(entries.drop_last()).insert(entries.last().key_id@, entries.last().key@)
    }
}

/// When every entry is well formed, every key the mapping resolves to is
/// 32 bytes of valid key material.
pub proof fn lemma_key_map_wf(entries: Seq<KeyEntry>, kid: Seq<char>)
    requires
        forall|i: int| 0 <= i < entries.len() ==> (#[trigger] entries[i]).wf(),
        key_map(entries).contains_key(kid),
    ensures
        key_map(entries)[kid].len() == 32,
        ed25519_key_well_formed(key_map(entries)[kid]),
    decreases entries.len(),
{
    if entries.len() > 0 {
        let prefix = entries.drop_last();
        assert(entries.last().wf());
        if entries.last().key_id@ != kid {
            assert(forall|i: int| 0 <= i < prefix.len() ==> (#[trigger] prefix[i]).wf());
            lemma_key_map_wf(prefix, kid);
        }
    }
}

/// Look a key id up among the registered entries; the last entry with the id
/// wins, as repeated insertion into a map would have it.
pub fn lookup_key<'a>(entries: &'a Vec<KeyEntry>, key_id: &String) -> (r: Option<&'a Vec<u8>>)
    ensures
        match r {
            Some(key) => key_map(entries@).contains_key(key_id@) && key_map(entries@)[key_id@]
                == key@,
            None => !key_map(entries@).contains_key(key_id@),
        },
{
    let n: usize = entries.len();
    let mut i: usize = n;
    proof {
        assert(entries@.take(n as int) =~= entries@);
    }
    while i > 0
        invariant
            0 <= i <= n,
            n == entries@.len(),
            !key_map(entries@.take(i as int)).contains_key(key_id@) ==> !key_map(
                entries@,
            ).contains_key(key_id@),
            key_map(entries@.take(i as int)).contains_key(key_id@) ==> key_map(
                entries@,
            ).contains_key(key_id@) && key_map(entries@)[key_id@] == key_map(
                entries@.take(i as int),
            )[key_id@],
        decreases i,
    {
        i = i - 1;
        let entry = &entries[i];
        proof {
            assert(entries@.take(i + 1).drop_last() =~= entries@.take(i as int));
            assert(entries@.take(i + 1).last() == entries@[i as int]);
        }
        if entry.key_id.eq(key_id) {
            proof {
                assert(key_map(entries@.take(i + 1)).contains_key(key_id@));
                assert(key_map(entries@.take(i + 1))[key_id@] == entries@[i as int].key@);
            }
            return Some(&entries[i].key);
        }
        proof {
            assert(key_map(entries@.take(i + 1)) == key_map(entries@.take(i as int)).insert(
                entries@[i as int].key_id@,
                entries@[i as int].key@,
            ));
        }
    }
    proof {
        assert(entries@.take(0) =~= Seq::<KeyEntry>::empty());
        assert(!key_map(entries@.take(0)).contains_key(key_id@));
    }
    None
}

} // verus!
