//! The credential cache: a memo of the durable secret store, one slot per
//! secret name, each in one of three states.
//!
//! The store round trip itself is made by the caller; a slot records what
//! each completed operation learned or wrote, under the cache lock.

use vstd::prelude::*;
use crate::token::OAuthTokenData;

verus! {

/// What the cache knows of one secret.
pub enum CacheEntry<V> {
    /// Never read from the store.
    Unknown,
    /// Read, or deleted: the store holds no such secret.
    Absent,
    /// Read or written: the store holds this value.
    Present(V),
}

/// A completed operation on one secret, as it reaches the cache.
pub enum CacheOp<V> {
    /// A read-through returned this (None: not found).
    Fetched(Option<V>),
    /// A write of this value went through to the store.
    Stored(V),
    /// A delete went through to the store.
    Delete,
}

/// A write, as opposed to a read-through.
pub open spec fn is_write<V>(op: CacheOp<V>) -> bool {
    !(op is Fetched)
}

/// The state that a write leaves.
pub open spec fn written<V>(op: CacheOp<V>) -> CacheEntry<V> {
    match op {
        CacheOp::Stored(v) => CacheEntry::Present(v),
        _ => CacheEntry::Absent,
    }
}

/// The effect of one completed operation. A read-through fills only an
/// unknown slot: a write that completed while the read was under way wins.
pub open spec fn cache_step<V>(e: CacheEntry<V>, op: CacheOp<V>) -> CacheEntry<V> {
    match op {
        CacheOp::Fetched(found) => match e {
            CacheEntry::Unknown => match found {
                Some(v) => CacheEntry::Present(v),
                None => CacheEntry::Absent,
            },
            _ => e,
        },
        _ => written(op),
    }
}

/// The state after a sequence of completed operations, in completion order.
pub open spec fn cache_run<V>(e: CacheEntry<V>, ops: Seq<CacheOp<V>>) -> CacheEntry<V>
    decreases ops.len(),
{
    if ops.len() == 0 {
        e
    } else {
        cache_step(cache_run(e, ops.drop_last()), ops.last())
    }
}

/// The cache's memo of one secret.
pub struct SecretSlot<V> {
    pub entry: CacheEntry<V>,
}

impl<V> SecretSlot<V> {
    /// A slot that knows nothing yet.
    pub fn new() -> (r: Self)
        ensures
            r.entry is Unknown,
    {
        SecretSlot { entry: CacheEntry::Unknown }
    }

    /// What the cache knows; `Unknown` means a read-through is due.
    pub fn get(&self) -> (r: &CacheEntry<V>)
        ensures
            *r == self.entry,
    {
        &self.entry
    }

    /// Record what a read-through found, unless a write completed meanwhile.
    pub fn record_fetch(&mut self, found: Option<V>)
        ensures
            final(self).entry == cache_step(old(self).entry, CacheOp::Fetched(found)),
    {
        if let CacheEntry::Unknown = self.entry {
            self.entry = match found {
                Some(v) => CacheEntry::Present(v),
                None => CacheEntry::Absent,
            };
        }
    }

    /// Record a write that went through to the store.
    pub fn record_set(&mut self, value: V)
        ensures
            final(self).entry == cache_step(old(self).entry, CacheOp::Stored(value)),
    {
        self.entry = CacheEntry::Present(value);
    }

    /// Record a delete that went through to the store.
    pub fn record_delete(&mut self)
        ensures
            final(self).entry == cache_step(old(self).entry, CacheOp::<V>::Delete),
    {
        self.entry = CacheEntry::Absent;
    }

    /// Whether the secret exists, if the cache knows.
    pub fn is_present(&self) -> (r: Option<bool>)
        ensures
            r == match self.entry {
                CacheEntry::Unknown => None,
                CacheEntry::Absent => Some(false),
                CacheEntry::Present(_) => Some(true),
            },
    {
        match self.entry {
            CacheEntry::Unknown => None,
            CacheEntry::Absent => Some(false),
            CacheEntry::Present(_) => Some(true),
        }
    }
}

/// Cache consistency: whatever the starting state, after a sequence of
/// completed operations on one secret the cached state is the one that the
/// last completed write left.
pub proof fn lemma_last_write_wins<V>(start: CacheEntry<V>, ops: Seq<CacheOp<V>>, k: int)
    requires
        0 <= k < ops.len(),
        is_write(ops[k]),
        forall|j: int| k < j < ops.len() ==> !is_write(#[trigger] ops[j]),
    ensures
        cache_run(start, ops) == written(ops[k]),
    decreases ops.len(),
{
    if k < ops.len() - 1 {
        let front = ops.drop_last();
        assert forall|j: int| k < j < front.len() implies !is_write(#[trigger] front[j]) by {
            assert(front[j] == ops[j]);
        }
        assert(front[k] == ops[k]);
        lemma_last_write_wins(start, front, k);
        assert(!is_write(ops[ops.len() - 1]));
    }
}

/// The names under which the secrets are kept in the store.
pub enum SecretName {
    /// The plain (legacy) bearer credential.
    GithubToken,
    /// The structured credential record.
    GithubTokenData,
    /// The AI service's key.
    GeminiKey,
}

impl SecretName {
    /// The key under which the store holds this secret.
    pub fn key(&self) -> (r: &'static str)
        ensures
            r@ == secret_key(*self),
    {
        match self {
            SecretName::GithubToken => "github_token",
            SecretName::GithubTokenData => "github_token_data",
            SecretName::GeminiKey => "gemini_api_key",
        }
    }
}

pub open spec fn secret_key(n: SecretName) -> Seq<char> {
    match n {
        SecretName::GithubToken => "github_token"@,
        SecretName::GithubTokenData => "github_token_data"@,
        SecretName::GeminiKey => "gemini_api_key"@,
    }
}

/// The service under which every secret of this client is stored.
pub const SERVICE_NAME: &'static str = "argo-rs";

/// The process's credential cache: one slot per secret name. The store's
/// record is kept as the structured record that it encodes.
pub struct CredentialStore {
    pub github_token: SecretSlot<String>,
    pub github_token_data: SecretSlot<OAuthTokenData>,
    pub gemini_key: SecretSlot<String>,
}

impl CredentialStore {
    /// A cache that knows nothing yet.
    pub fn new() -> (r: Self)
        ensures
            r.github_token.entry is Unknown,
            r.github_token_data.entry is Unknown,
            r.gemini_key.entry is Unknown,
    {
        CredentialStore {
            github_token: SecretSlot::new(),
            github_token_data: SecretSlot::new(),
            gemini_key: SecretSlot::new(),
        }
    }

    /// Whether a legacy credential is stored, if the cache knows.
    pub fn has_github_token(&self) -> (r: Option<bool>)
        ensures
            r == match self.github_token.entry {
                CacheEntry::Unknown => None,
                CacheEntry::Absent => Some(false),
                CacheEntry::Present(_) => Some(true),
            },
    {
        self.github_token.is_present()
    }

    /// Whether a structured credential record is stored, if the cache knows.
    pub fn has_github_token_data(&self) -> (r: Option<bool>)
        ensures
            r == match self.github_token_data.entry {
                CacheEntry::Unknown => None,
                CacheEntry::Absent => Some(false),
                CacheEntry::Present(_) => Some(true),
            },
    {
        self.github_token_data.is_present()
    }

    /// Whether the AI service's key is stored, if the cache knows.
    pub fn has_gemini_key(&self) -> (r: Option<bool>)
        ensures
            r == match self.gemini_key.entry {
                CacheEntry::Unknown => None,
                CacheEntry::Absent => Some(false),
                CacheEntry::Present(_) => Some(true),
            },
    {
        self.gemini_key.is_present()
    }

    /// A credential for display: up to eight characters become as many
    /// `*`; a longer one shows its first four and last four characters
    /// around `...`.
    pub fn mask_token(token: &str) -> (r: String)
        ensures
            r@ == mask_spec(token@),
    {
        let n = token.unicode_len();
        if n <= 8 {
            let mut r = String::new();
            let mut i: usize = 0;
            proof {
                reveal_strlit("*");
            }
            while i < n
                invariant
                    i <= n,
                    r@ =~= Seq::new(i as nat, |k: int| '*'),
                decreases n - i,
            {
                proof {
                    reveal_strlit("*");
                }
                assert("*"@ =~= seq!['*']);
                r.append("*");
                i += 1;
            }
            r
        } else {
            proof {
                reveal_strlit("...");
            }
            assert("..."@ =~= seq!['.', '.', '.']);
            let mut r = String::from_str(token.substring_char(0, 4));
            r.append("...");
            r.append(token.substring_char(n - 4, n));
            r
        }
    }
}

/// A credential as displayed.
pub open spec fn mask_spec(s: Seq<char>) -> Seq<char> {
    if s.len() <= 8 {
        Seq::new(s.len(), |k: int| '*')
    } else {
        s.subrange(0, 4) + seq!['.', '.', '.'] + s.subrange(s.len() - 4, s.len() as int)
    }
}

} // verus!
