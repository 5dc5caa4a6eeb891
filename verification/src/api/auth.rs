//! HMAC bearer-token authentication for the kin injection API.
//!
//! A token reads `<key_id>:<signature>`, where the signature is the
//! base64-encoded HMAC-SHA256 of the key id under the key's secret. Keys are
//! known by identifier, each with its holder and secret; `GROK` is the key
//! held by Grok (xAI).
use vstd::prelude::*;
use vstd::string::*;
use crate::text::chars_of;

verus! {

/// The standard (padded) base64 decoding of `text`, or `None` where `text` is not valid base64.
pub uninterp spec fn base64_decoded(text: Seq<char>) -> Option<Seq<u8>>;

/// The standard (padded) base64 encoding of `bytes`.
pub uninterp spec fn base64_encoded(bytes: Seq<u8>) -> Seq<char>;

/// The HMAC-SHA256 tag of the UTF-8 bytes of `message` under the key `secret`.
pub uninterp spec fn hmac_sha256_tag(secret: Seq<u8>, message: Seq<char>) -> Seq<u8>;

/// Decodes standard base64 (`base64::engine::general_purpose::STANDARD.decode`);
/// the result is named by `base64_decoded`.
#[verifier::external_body]
fn base64_decode(text: &str) -> (r: Option<Vec<u8>>)
    ensures
        match r {
            Some(v) => base64_decoded(text@) == Some(v@),
            None => base64_decoded(text@) is None,
        },
{
    base64::Engine::decode(&base64::engine::general_purpose::STANDARD, text).ok()
}

/// Encodes bytes as standard base64 (`base64::engine::general_purpose::STANDARD.encode`);
/// the result is named by `base64_encoded`. The standard alphabet holds no
/// colon, and the same engine decodes the text back to the bytes.
#[verifier::external_body]
fn base64_encode(bytes: &[u8]) -> (s: String)
    ensures
        s@ == base64_encoded(bytes@),
        colon_count(s@) == 0,
        base64_decoded(s@) == Some(bytes@),
{
    base64::Engine::encode(&base64::engine::general_purpose::STANDARD, bytes)
}

/// The HMAC-SHA256 tag of `message`'s bytes under `secret` (`Hmac::<Sha256>::new_from_slice`,
/// which accepts a key of any length, then `update` and `finalize`); named by `hmac_sha256_tag`.
#[verifier::external_body]
fn hmac_sha256(secret: &[u8], message: &str) -> (tag: Vec<u8>)
    ensures
        tag@ == hmac_sha256_tag(secret@, message@),
{
    let mut mac = <hmac::Hmac<sha2::Sha256> as hmac::Mac>::new_from_slice(secret).expect("HMAC accepts any key size");
    hmac::Mac::update(&mut mac, message.as_bytes());
    hmac::Mac::finalize(mac).into_bytes().to_vec()
}

/// Whether `tag` is the HMAC-SHA256 tag of `message`'s bytes under `secret`
/// (`Mac::verify_slice`, which accepts exactly the full tag, compared in constant time).
#[verifier::external_body]
fn hmac_sha256_verify(secret: &[u8], message: &str, tag: &[u8]) -> (ok: bool)
    ensures
        ok == (tag@ == hmac_sha256_tag(secret@, message@)),
{
    let mut mac = <hmac::Hmac<sha2::Sha256> as hmac::Mac>::new_from_slice(secret).expect("HMAC accepts any key size");
    hmac::Mac::update(&mut mac, message.as_bytes());
    hmac::Mac::verify_slice(mac, tag).is_ok()
}

/// An authenticated API key: its identifier and the party holding it.
#[derive(Debug, Clone, PartialEq)]
pub struct AuthenticatedKey {
    /// Key identifier
    pub key_id: String,
    /// Who holds the key
    pub holder: String,
}

/// A known API key: its identifier, who holds it and its decoded secret, where configured.
#[derive(Debug, Clone)]
pub struct ApiKey {
    /// Key identifier
    pub key_id: String,
    /// Who holds the key
    pub holder: String,
    /// Decoded secret, if configured
    pub secret: Option<Vec<u8>>,
}

/// The known API keys.
#[derive(Debug, Clone)]
pub struct ApiKeys {
    /// The keys, looked up by identifier in order
    pub keys: Vec<ApiKey>,
}

/// A known key as a mathematical value.
pub struct KeyView {
    pub key_id: Seq<char>,
    pub holder: Seq<char>,
    pub secret: Option<Seq<u8>>,
}

/// The value a known key holds.
pub open spec fn key_view(k: ApiKey) -> KeyView {
    KeyView {
        key_id: k.key_id@,
        holder: k.holder@,
        secret: match k.secret { Some(s) => Some(s@), None => None },
    }
}

/// The first key with identifier `id`, if any.
pub open spec fn first_key(keys: Seq<ApiKey>, id: Seq<char>) -> Option<KeyView>
    decreases keys.len(),
{
    if keys.len() == 0 {
        None
    } else if keys[0].key_id@ == id {
        Some(key_view(keys[0]))
    } else {
        first_key(keys.skip(1), id)
    }
}

/// How many colons the text holds.
pub open spec fn colon_count(t: Seq<char>) -> nat
    decreases t.len(),
{
    if t.len() == 0 {
        0
    } else {
        colon_count(t.drop_last()) + if t.last() == ':' { 1nat } else { 0nat }
    }
}

/// The position of the first colon (meaningful when there is one).
pub open spec fn colon_position(t: Seq<char>) -> int {
    choose|i: int| 0 <= i < t.len() && t[i] == ':' && forall|j: int| 0 <= j < i ==> t[j] != ':'
}

/// The two parts of a token split at its colons: `Some((key_id, signature))`
/// when the token holds exactly one colon.
pub open spec fn token_parts(t: Seq<char>) -> Option<(Seq<char>, Seq<char>)> {
    if colon_count(t) == 1 {
        let p = colon_position(t);
        Some((t.take(p), t.skip(p + 1)))
    } else {
        None
    }
}

impl ApiKeys {
    /// No known key.
    pub fn new() -> (k: ApiKeys)
        ensures
            k.keys@ == Seq::<ApiKey>::empty(),
    {
        ApiKeys { keys: Vec::new() }
    }

    /// The keys with one more known key, looked up after the others.
    pub fn with_key(self, key_id: &str, holder: &str, secret: Option<Vec<u8>>) -> (k: ApiKeys)
        ensures
            k.keys@.len() == self.keys@.len() + 1,
            k.keys@.take(self.keys@.len() as int) == self.keys@,
            key_view(k.keys@.last()) == (KeyView {
                key_id: key_id@,
                holder: holder@,
                secret: match secret { Some(s) => Some(s@), None => None },
            }),
    {
        let mut keys = self.keys;
        let ghost before = keys@;
        keys.push(ApiKey { key_id: String::from_str(key_id), holder: String::from_str(holder), secret });
        proof {
            assert(keys@.take(before.len() as int) =~= before);
        }
        ApiKeys { keys }
    }

    /// The keys with one more known key whose secret is given base64-encoded
    /// (as the environment holds it): a secret that does not decode, or none
    /// given, leaves the key without a secret.
    pub fn with_encoded_key(self, key_id: &str, holder: &str, encoded: Option<&str>) -> (k: ApiKeys)
        ensures
            k.keys@.len() == self.keys@.len() + 1,
            k.keys@.take(self.keys@.len() as int) == self.keys@,
            key_view(k.keys@.last()) == (KeyView {
                key_id: key_id@,
                holder: holder@,
                secret: match encoded {
                    Some(e) => base64_decoded(e@),
                    None => None,
                },
            }),
    {
        let secret = match encoded {
            Some(e) => base64_decode(e),
            None => None,
        };
        self.with_key(key_id, holder, secret)
    }

    /// The `GROK` key, held by Grok (xAI), with its secret where configured.
    pub fn grok(secret: Option<Vec<u8>>) -> (k: ApiKeys)
        ensures
            k.keys@.len() == 1,
            key_view(k.keys@[0]) == (KeyView {
                key_id: "GROK"@,
                holder: "Grok (xAI)"@,
                secret: match secret { Some(s) => Some(s@), None => None },
            }),
    {
        ApiKeys::new().with_key("GROK", "Grok (xAI)", secret)
    }

    /// Who a token authenticates as, `(key_id, holder)`: the token must split
    /// into the identifier of a known key with a configured secret and a
    /// base64 signature that is the HMAC-SHA256 of the key id under that secret.
    pub open spec fn authenticates(self, t: Seq<char>) -> Option<(Seq<char>, Seq<char>)> {
        match token_parts(t) {
            None => None,
            Some((id, sig_text)) => match base64_decoded(sig_text) {
                None => None,
                Some(sig) => match first_key(self.keys@, id) {
                    Some(k) => match k.secret {
                        Some(secret) => if sig == hmac_sha256_tag(secret, id) { Some((id, k.holder)) } else { None },
                        None => None,
                    },
                    None => None,
                },
            },
        }
    }

    fn find(&self, id: &str) -> (r: Option<usize>)
        ensures
            match r {
                Some(i) => i < self.keys@.len() && first_key(self.keys@, id@) == Some(key_view(self.keys@[i as int])),
                None => first_key(self.keys@, id@) is None,
            },
    {
        let key = String::from_str(id);
        let mut i: usize = 0;
        proof {
            assert(self.keys@.skip(0) =~= self.keys@);
        }
        while i < self.keys.len()
            invariant
                i <= self.keys@.len(),
                key@ == id@,
                first_key(self.keys@, id@) == first_key(self.keys@.skip(i as int), id@),
            decreases self.keys@.len() - i,
        {
            proof {
                let rest = self.keys@.skip(i as int);
                assert(rest[0] == self.keys@[i as int]);
                assert(rest.skip(1) =~= self.keys@.skip(i + 1));
            }
            if self.keys[i].key_id == key {
                return Some(i);
            }
            i += 1;
        }
        proof {
            assert(self.keys@.skip(i as int) =~= Seq::<ApiKey>::empty());
        }
        None
    }

    /// Validates a bearer token: the authenticated key, or `None` when the
    /// token does not authenticate.
    pub fn validate(&self, token: &str) -> (r: Option<AuthenticatedKey>)
        ensures
            match self.authenticates(token@) {
                Some((id, holder)) => r matches Some(k) && k.key_id@ == id && k.holder@ == holder,
                None => r is None,
            },
    {
        let parts = split_token(token);
        let (key_id, sig_text) = match parts {
            None => {
                return None;
            },
            Some(p) => p,
        };
        let provided = match base64_decode(sig_text) {
            None => {
                return None;
            },
            Some(s) => s,
        };
        let i = match self.find(key_id) {
            None => {
                return None;
            },
            Some(i) => i,
        };
        let secret = match &self.keys[i].secret {
            None => {
                return None;
            },
            Some(s) => s,
        };
        if hmac_sha256_verify(secret.as_slice(), key_id, provided.as_slice()) {
            Some(AuthenticatedKey { key_id: String::from_str(key_id), holder: self.keys[i].holder.clone() })
        } else {
            None
        }
    }
}

proof fn lemma_colon_count_take(t: Seq<char>, i: int)
    requires
        0 <= i < t.len(),
    ensures
        colon_count(t.take(i + 1)) == colon_count(t.take(i)) + if t[i] == ':' { 1nat } else { 0nat },
{
    assert(t.take(i + 1).drop_last() =~= t.take(i));
}

/// Splits a token at its colons: the two parts when it holds exactly one colon.
fn split_token(token: &str) -> (r: Option<(&str, &str)>)
    ensures
        match token_parts(token@) {
            Some((id, sig)) => r matches Some(p) && p.0@ == id && p.1@ == sig,
            None => r is None,
        },
{
    let cs = chars_of(token);
    let n = cs.len();
    let mut count: usize = 0;
    let mut first: usize = 0;
    let mut i: usize = 0;
    while i < n
        invariant
            n == cs@.len(),
            cs@ == token@,
            i <= n,
            count == colon_count(token@.take(i as int)),
            count <= i,
            count > 0 ==> first < i && token@[first as int] == ':' && forall|j: int| 0 <= j < first ==> token@[j] != ':',
            count == 0 ==> forall|j: int| 0 <= j < i ==> token@[j] != ':',
        decreases n - i,
    {
        proof {
            lemma_colon_count_take(token@, i as int);
        }
        if cs[i] == ':' {
            if count == 0 {
                first = i;
            }
            count += 1;
        }
        i += 1;
    }
    proof {
        assert(token@.take(n as int) =~= token@);
    }
    if count != 1 {
        return None;
    }
    proof {
        let p = colon_position(token@);
        assert(0 <= first < token@.len() && token@[first as int] == ':' && forall|j: int| 0 <= j < first ==> token@[j] != ':');
        assert(0 <= p < token@.len() && token@[p] == ':' && forall|j: int| 0 <= j < p ==> token@[j] != ':');
        if p < first {
            assert(token@[p] != ':');
        }
        if first < p {
            assert(token@[first as int] != ':');
        }
        assert(p == first);
    }
    let key_id = token.substring_char(0, first);
    let sig = token.substring_char(first + 1, n);
    proof {
        assert(key_id@ =~= token@.take(first as int));
        assert(sig@ =~= token@.skip(first + 1));
    }
    Some((key_id, sig))
}

/// The text of the token for `key_id` under `secret`: the key id, a colon and
/// the base64 HMAC-SHA256 signature of the key id.
pub open spec fn token_text(key_id: Seq<char>, secret: Seq<u8>) -> Seq<char> {
    key_id + ":"@ + base64_encoded(hmac_sha256_tag(secret, key_id))
}

/// Generates the signed token for a key (a utility for key generation). A
/// token generated for a known key id without colons authenticates, under
/// keys holding the same secret, as that key.
pub fn generate_token(key_id: &str, secret: &[u8]) -> (t: String)
    ensures
        t@ == token_text(key_id@, secret@),
        forall|keys: ApiKeys| #![trigger keys.authenticates(t@)]
            first_key(keys.keys@, key_id@) matches Some(k) && k.secret == Some(secret@) && colon_count(key_id@) == 0
            ==> keys.authenticates(t@) == Some((key_id@, first_key(keys.keys@, key_id@)->0.holder)),
{
    let tag = hmac_sha256(secret, key_id);
    let sig = base64_encode(tag.as_slice());
    proof {
        assert forall|keys: ApiKeys| #![trigger keys.authenticates(token_text(key_id@, secret@))]
            first_key(keys.keys@, key_id@) matches Some(k) && k.secret == Some(secret@) && colon_count(key_id@) == 0
            implies keys.authenticates(token_text(key_id@, secret@)) == Some((key_id@, first_key(keys.keys@, key_id@)->0.holder)) by {
            lemma_generated_token_authenticates(keys, key_id@, secret@);
        }
    }
    let mut t = String::from_str(key_id);
    t.append(":");
    t.append(sig.as_str());
    t
}

/// The token carried by an `Authorization` header value: what follows the
/// `Bearer ` prefix, or `None` without that prefix.
pub open spec fn bearer_token_text(header: Seq<char>) -> Option<Seq<char>> {
    if header.len() >= 7 && header.take(7) == "Bearer "@ {
        Some(header.skip(7))
    } else {
        None
    }
}

/// Extracts the bearer token from an `Authorization` header value.
pub fn bearer_token(header: &str) -> (r: Option<&str>)
    ensures
        match bearer_token_text(header@) {
            Some(t) => r matches Some(s) && s@ == t,
            None => r is None,
        },
{
    let n = header.unicode_len();
    if n < 7 {
        return None;
    }
    let prefix = header.substring_char(0, 7);
    let p = String::from_str(prefix);
    let expected = String::from_str("Bearer ");
    proof {
        reveal_strlit("Bearer ");
    }
    if p == expected {
        let rest = header.substring_char(7, n);
        proof {
            assert(header@.take(7) =~= prefix@);
            assert(rest@ =~= header@.skip(7));
        }
        Some(rest)
    } else {
        proof {
            assert(header@.take(7) =~= prefix@);
        }
        None
    }
}

/// A token made by `generate_token` for a known key authenticates as that key
/// under the keys that hold the same secret, provided the key id holds no colon.
pub proof fn lemma_generated_token_authenticates(keys: ApiKeys, key_id: Seq<char>, secret: Seq<u8>)
    requires
        first_key(keys.keys@, key_id) matches Some(k) && k.secret == Some(secret),
        colon_count(key_id) == 0,
        colon_count(base64_encoded(hmac_sha256_tag(secret, key_id))) == 0,
        base64_decoded(base64_encoded(hmac_sha256_tag(secret, key_id))) == Some(hmac_sha256_tag(secret, key_id)),
    ensures
        keys.authenticates(token_text(key_id, secret)) == Some((key_id, first_key(keys.keys@, key_id)->0.holder)),
{
    let enc = base64_encoded(hmac_sha256_tag(secret, key_id));
    let t = token_text(key_id, secret);
    lemma_colon_count_concat(key_id, ":"@);
    lemma_colon_count_concat(key_id + ":"@, enc);
    assert(":"@ =~= seq![':']) by {
        reveal_strlit(":");
    }
    assert(colon_count(seq![':']) == 1) by {
        assert(seq![':'].drop_last() =~= Seq::<char>::empty());
        assert(colon_count(Seq::<char>::empty()) == 0);
        assert(seq![':'].last() == ':');
    }
    let p = colon_position(t);
    let k = key_id.len() as int;
    assert(t[k] == ':');
    lemma_no_colon_before(key_id);
    assert forall|j: int| 0 <= j < k implies t[j] != ':' by {
        assert(t[j] == key_id[j]);
    }
    if p < k {
        assert(t[p] == key_id[p]);
    }
    if p > k {
        assert(t[k] != ':');
    }
    assert(p == k);
    assert(t.take(k) =~= key_id);
    assert(t.skip(k + 1) =~= enc);
}

proof fn lemma_colon_count_concat(a: Seq<char>, b: Seq<char>)
    ensures
        colon_count(a + b) == colon_count(a) + colon_count(b),
    decreases b.len(),
{
    if b.len() == 0 {
        assert(a + b =~= a);
    } else {
        lemma_colon_count_concat(a, b.drop_last());
        assert((a + b).drop_last() =~= a + b.drop_last());
    }
}

proof fn lemma_no_colon_before(t: Seq<char>)
    requires
        colon_count(t) == 0,
    ensures
        forall|j: int| 0 <= j < t.len() ==> t[j] != ':',
    decreases t.len(),
{
    if t.len() > 0 {
        lemma_no_colon_before(t.drop_last());
        assert forall|j: int| 0 <= j < t.len() implies t[j] != ':' by {
            if j < t.len() - 1 {
                assert(t.drop_last()[j] == t[j]);
            }
        }
    }
}

} // verus!
