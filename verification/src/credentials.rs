use vstd::prelude::*;

use crate::player::opt_view;
use crate::text::{chars_of, push_str, str_eq, string_from_chars, trim_spec, trim_str};
use base64::Engine;

verus! {

/// The map that a list of entries describes, a later entry overriding an
/// earlier one.
pub open spec fn entries_map(s: Seq<(String, String)>) -> Map<Seq<char>, Seq<char>>
    decreases s.len(),
{
    if s.len() == 0 {
        Map::empty()
    } else {
        entries_map(s.drop_last()).insert(s.last().0@, s.last().1@)
    }
}

/// No key occurs twice.
pub open spec fn distinct_keys(s: Seq<(String, String)>) -> bool {
    forall|i: int, j: int| 0 <= i < j < s.len() ==> (#[trigger] s[i]).0@ != (#[trigger] s[j]).0@
}

proof fn lemma_entries_same(a: Seq<(String, String)>, b: Seq<(String, String)>)
    requires
        a.len() == b.len(),
        forall|j: int| 0 <= j < a.len() ==> (#[trigger] a[j]).0@ == b[j].0@ && a[j].1@ == b[j].1@,
    ensures
        entries_map(a) == entries_map(b),
    decreases a.len(),
{
    if a.len() > 0 {
        assert forall|j: int| 0 <= j < a.len() - 1 implies (#[trigger] a.drop_last()[j]).0@
            == b.drop_last()[j].0@ && a.drop_last()[j].1@ == b.drop_last()[j].1@ by {
            assert(a.drop_last()[j] == a[j] && b.drop_last()[j] == b[j]);
        }
        lemma_entries_same(a.drop_last(), b.drop_last());
        assert(a.last() == a[a.len() - 1]);
    }
}

proof fn lemma_entries_absent(s: Seq<(String, String)>, k: Seq<char>)
    requires
        forall|i: int| 0 <= i < s.len() ==> (#[trigger] s[i]).0@ != k,
    ensures
        !entries_map(s).dom().contains(k),
    decreases s.len(),
{
    if s.len() > 0 {
        assert forall|i: int| 0 <= i < s.len() - 1 implies (#[trigger] s.drop_last()[i]).0@ != k by {
            assert(s.drop_last()[i] == s[i]);
        }
        lemma_entries_absent(s.drop_last(), k);
    }
}

proof fn lemma_entries_at(s: Seq<(String, String)>, i: int)
    requires
        distinct_keys(s),
        0 <= i < s.len(),
    ensures
        entries_map(s).dom().contains(s[i].0@),
        entries_map(s)[s[i].0@] == s[i].1@,
    decreases s.len(),
{
    if i < s.len() - 1 {
        let t = s.drop_last();
        assert(t[i] == s[i]);
        assert forall|a: int, b: int| 0 <= a < b < t.len() implies (#[trigger] t[a]).0@ != (
        #[trigger] t[b]).0@ by {
            assert(t[a] == s[a] && t[b] == s[b]);
        }
        lemma_entries_at(t, i);
        assert(s[s.len() - 1] == s.last());
    }
}

proof fn lemma_entries_update(s: Seq<(String, String)>, i: int, v: String)
    requires
        distinct_keys(s),
        0 <= i < s.len(),
    ensures
        entries_map(s.update(i, (s[i].0, v))) == entries_map(s).insert(s[i].0@, v@),
    decreases s.len(),
{
    let u = s.update(i, (s[i].0, v));
    if i == s.len() - 1 {
        assert(u.drop_last() == s.drop_last());
        let t = s.drop_last();
        assert forall|a: int| 0 <= a < t.len() implies (#[trigger] t[a]).0@ != s[i].0@ by {
            assert(t[a] == s[a]);
        }
        lemma_entries_absent(t, s[i].0@);
        assert(entries_map(u) =~= entries_map(s).insert(s[i].0@, v@));
    } else {
        let t = s.drop_last();
        assert forall|a: int, b: int| 0 <= a < b < t.len() implies (#[trigger] t[a]).0@ != (
        #[trigger] t[b]).0@ by {
            assert(t[a] == s[a] && t[b] == s[b]);
        }
        assert(t[i] == s[i]);
        lemma_entries_update(t, i, v);
        assert(u.drop_last() == t.update(i, (t[i].0, v)));
        assert(u.last() == s.last());
        assert(s.last().0@ != s[i].0@);
        assert(entries_map(u) =~= entries_map(s).insert(s[i].0@, v@));
    }
}

proof fn lemma_entries_remove(s: Seq<(String, String)>, i: int)
    requires
        distinct_keys(s),
        0 <= i < s.len(),
    ensures
        entries_map(s.remove(i)) == entries_map(s).remove(s[i].0@),
        distinct_keys(s.remove(i)),
    decreases s.len(),
{
    let r = s.remove(i);
    assert forall|a: int, b: int| 0 <= a < b < r.len() implies (#[trigger] r[a]).0@ != (
    #[trigger] r[b]).0@ by {
        let a2 = if a < i { a } else { a + 1 };
        let b2 = if b < i { b } else { b + 1 };
        assert(r[a] == s[a2] && r[b] == s[b2]);
    }
    if i == s.len() - 1 {
        assert(r == s.drop_last());
        let t = s.drop_last();
        assert forall|a: int| 0 <= a < t.len() implies (#[trigger] t[a]).0@ != s[i].0@ by {
            assert(t[a] == s[a]);
        }
        lemma_entries_absent(t, s[i].0@);
        assert(entries_map(r) =~= entries_map(s).remove(s[i].0@));
    } else {
        let t = s.drop_last();
        assert forall|a: int, b: int| 0 <= a < b < t.len() implies (#[trigger] t[a]).0@ != (
        #[trigger] t[b]).0@ by {
            assert(t[a] == s[a] && t[b] == s[b]);
        }
        assert(t[i] == s[i]);
        lemma_entries_remove(t, i);
        assert(r.drop_last() == t.remove(i));
        assert(r.last() == s.last());
        assert(s.last().0@ != s[i].0@);
        assert(entries_map(r) =~= entries_map(s).remove(s[i].0@));
    }
}

/// The passwords a client remembers, one per server.
#[derive(Debug, Clone)]
pub struct ClientPasswords {
    entries: Vec<(String, String)>,
}

impl View for ClientPasswords {
    type V = Map<Seq<char>, Seq<char>>;

    closed spec fn view(&self) -> Map<Seq<char>, Seq<char>> {
        entries_map(self.entries@)
    }
}

impl ClientPasswords {
    /// No server is listed twice.
    pub closed spec fn wf(&self) -> bool {
        distinct_keys(self.entries@)
    }

    /// No passwords.
    pub fn new() -> (r: Self)
        ensures
            r.wf(),
            r@ == Map::<Seq<char>, Seq<char>>::empty(),
    {
        ClientPasswords { entries: Vec::new() }
    }

    fn position(&self, server_id: &str) -> (r: Option<usize>)
        requires
            self.wf(),
        ensures
            match r {
                Some(i) => i < self.entries@.len() && self.entries@[i as int].0@ == server_id@,
                None => forall|j: int|
                    0 <= j < self.entries@.len() ==> (#[trigger] self.entries@[j]).0@ != server_id@,
            },
    {
        let mut i: usize = 0;
        while i < self.entries.len()
            invariant
                i <= self.entries@.len(),
                forall|j: int| 0 <= j < i ==> (#[trigger] self.entries@[j]).0@ != server_id@,
            decreases self.entries@.len() - i,
        {
            if str_eq(self.entries[i].0.as_str(), server_id) {
                return Some(i);
            }
            i = i + 1;
        }
        None
    }

    /// The password remembered for a server.
    pub fn get(&self, server_id: &str) -> (r: Option<String>)
        requires
            self.wf(),
        ensures
            opt_view(r) == if self@.dom().contains(server_id@) {
                Some(self@[server_id@])
            } else {
                None
            },
    {
        match self.position(server_id) {
            Some(i) => {
                proof {
                    lemma_entries_at(self.entries@, i as int);
                }
                Some(self.entries[i].1.clone())
            },
            None => {
                proof {
                    lemma_entries_absent(self.entries@, server_id@);
                }
                None
            },
        }
    }

    /// Remembers `password` for a server, replacing what was there.
    pub fn insert(&mut self, server_id: &str, password: String)
        requires
            old(self).wf(),
        ensures
            final(self).wf(),
            final(self)@ == old(self)@.insert(server_id@, password@),
    {
        match self.position(server_id) {
            Some(i) => {
                let ghost s = self.entries@;
                let key = self.entries[i].0.clone();
                proof {
                    lemma_entries_update(s, i as int, password);
                }
                self.entries.set(i, (key, password));
                assert(self.entries@ == s.update(i as int, (s[i as int].0, password)));
                assert forall|a: int, b: int| 0 <= a < b < self.entries@.len() implies (
                #[trigger] self.entries@[a]).0@ != (#[trigger] self.entries@[b]).0@ by {
                    assert(self.entries@[a].0@ == s[a].0@ && self.entries@[b].0@ == s[b].0@);
                }
            },
            None => {
                let ghost s = self.entries@;
                self.entries.push((string_from_chars(&chars_of(server_id)), password));
                assert(self.entries@.drop_last() == s);
                assert forall|a: int, b: int| 0 <= a < b < self.entries@.len() implies (
                #[trigger] self.entries@[a]).0@ != (#[trigger] self.entries@[b]).0@ by {
                    if b < s.len() {
                        assert(self.entries@[a] == s[a] && self.entries@[b] == s[b]);
                    } else {
                        assert(self.entries@[a] == s[a]);
                    }
                }
            },
        }
    }

    /// Forgets the password of a server.
    pub fn remove(&mut self, server_id: &str)
        requires
            old(self).wf(),
        ensures
            final(self).wf(),
            final(self)@ == old(self)@.remove(server_id@),
    {
        match self.position(server_id) {
            Some(i) => {
                let ghost s = self.entries@;
                proof {
                    lemma_entries_remove(s, i as int);
                }
                self.entries.remove(i);
            },
            None => {
                proof {
                    lemma_entries_absent(self.entries@, server_id@);
                }
                assert(self@ =~= self@.remove(server_id@));
            },
        }
    }

    /// Saves the password a user typed for a server: it is trimmed, and a
    /// blank password forgets the server's.
    pub fn save(&mut self, server_id: &str, password: &str)
        requires
            old(self).wf(),
        ensures
            final(self).wf(),
            final(self)@ == if trim_spec(password@).len() == 0 {
                old(self)@.remove(server_id@)
            } else {
                old(self)@.insert(server_id@, trim_spec(password@))
            },
    {
        let t = trim_str(password);
        if t.len() == 0 {
            self.remove(server_id);
        } else {
            self.insert(server_id, string_from_chars(&t));
        }
    }

    /// The entries as (server, password) pairs.
    pub fn entries(&self) -> (r: Vec<(String, String)>)
        ensures
            entries_map(r@) == self@,
    {
        let mut out: Vec<(String, String)> = Vec::new();
        let mut i: usize = 0;
        while i < self.entries.len()
            invariant
                i <= self.entries@.len(),
                out@.len() == i,
                forall|j: int| 0 <= j < i ==> (#[trigger] out@[j]).0@ == self.entries@[j].0@
                    && out@[j].1@ == self.entries@[j].1@,
            decreases self.entries@.len() - i,
        {
            out.push((self.entries[i].0.clone(), self.entries[i].1.clone()));
            i = i + 1;
        }
        proof {
            lemma_entries_same(out@, self.entries@);
        }
        out
    }
}

/// A saved password is what reading it back gives, trimmed; saving a blank
/// password forgets the server's password; other servers are untouched.
pub proof fn saved_password_reads_back(
    before: Map<Seq<char>, Seq<char>>,
    server_id: Seq<char>,
    password: Seq<char>,
    other: Seq<char>,
)
    requires
        other != server_id,
    ensures
        ({
            let after = if trim_spec(password).len() == 0 {
                before.remove(server_id)
            } else {
                before.insert(server_id, trim_spec(password))
            };
            &&& trim_spec(password).len() == 0 ==> !after.dom().contains(server_id)
            &&& trim_spec(password).len() > 0 ==> after.dom().contains(server_id) && after[server_id]
                == trim_spec(password)
            &&& after.dom().contains(other) == before.dom().contains(other)
            &&& before.dom().contains(other) ==> after[other] == before[other]
        }),
{
}

/// What the laboratory keeps in its credentials file.
#[derive(Debug, Clone)]
pub struct LaboratoryCredentials {
    pub server_id: String,
    pub client_id: String,
    pub server_password: Option<String>,
    pub web_token: Option<String>,
    pub client_passwords: ClientPasswords,
}

/// What `base64`'s URL-safe engine without padding makes of bytes.
pub open spec fn base64_url_no_pad(bytes: Seq<u8>) -> Seq<char> {
    crate::web::base64_spec(bytes, true, false)
}

/// Encodes bytes with `base64::engine::general_purpose::URL_SAFE_NO_PAD`: the
/// URL-safe RFC 4648 encoding that `base64_spec` states, without padding.
#[verifier::external_body]
fn encode_base64_url(bytes: &[u8]) -> (r: String)
    ensures
        r@ == base64_url_no_pad(bytes@),
{
    base64::engine::general_purpose::URL_SAFE_NO_PAD.encode(bytes)
}

/// A random identifier: the prefix, `-` and the URL-safe base64 of random
/// bytes.
pub fn random_id_from(prefix: &str, random: &[u8]) -> (r: String)
    ensures
        r@ == prefix@ + "-"@ + base64_url_no_pad(random@),
{
    let encoded = encode_base64_url(random);
    let mut out: Vec<char> = Vec::new();
    push_str(&mut out, prefix);
    push_str(&mut out, "-");
    push_str(&mut out, encoded.as_str());
    string_from_chars(&out)
}

/// A random web token: the URL-safe base64 of random bytes.
pub fn random_token_from(random: &[u8]) -> (r: String)
    ensures
        r@ == base64_url_no_pad(random@),
{
    encode_base64_url(random)
}

impl LaboratoryCredentials {
    /// Gives blank server and client identifiers fresh random ones, and says
    /// whether any was replaced.
    pub fn fill_missing_ids(&mut self, server_random: &[u8], client_random: &[u8]) -> (changed: bool)
        ensures
            final(self).server_id@ == if trim_spec(old(self).server_id@).len() == 0 {
                "server-"@ + base64_url_no_pad(server_random@)
            } else {
                old(self).server_id@
            },
            final(self).client_id@ == if trim_spec(old(self).client_id@).len() == 0 {
                "client-"@ + base64_url_no_pad(client_random@)
            } else {
                old(self).client_id@
            },
            changed == (trim_spec(old(self).server_id@).len() == 0 || trim_spec(
                old(self).client_id@,
            ).len() == 0),
            final(self).server_password == old(self).server_password,
            final(self).web_token == old(self).web_token,
            final(self).client_passwords == old(self).client_passwords,
    {
        proof {
            reveal_strlit("server");
            reveal_strlit("client");
            reveal_strlit("-");
            reveal_strlit("server-");
            reveal_strlit("client-");
        }
        let mut changed = false;
        if trim_str(self.server_id.as_str()).len() == 0 {
            self.server_id = random_id_from("server", server_random);
            changed = true;
        }
        if trim_str(self.client_id.as_str()).len() == 0 {
            self.client_id = random_id_from("client", client_random);
            changed = true;
        }
        changed
    }

    /// The web token, trimmed; a missing or blank token is replaced by a
    /// fresh one made from `random`. Says whether the token was replaced (and
    /// the file must be written).
    pub fn ensure_web_token(&mut self, random: &[u8]) -> (r: (String, bool))
        ensures
            match old(self).web_token {
                Some(t) if trim_spec(t@).len() > 0 => r.0@ == trim_spec(t@) && !r.1
                    && *final(self) == *old(self),
                _ => r.0@ == base64_url_no_pad(random@) && r.1 && opt_view(final(self).web_token)
                    == Some(r.0@) && final(self).server_id == old(self).server_id
                    && final(self).client_id == old(self).client_id
                    && final(self).server_password == old(self).server_password
                    && final(self).client_passwords == old(self).client_passwords,
            },
    {
        if let Some(t) = &self.web_token {
            let trimmed = trim_str(t.as_str());
            if trimmed.len() > 0 {
                return (string_from_chars(&trimmed), false);
            }
        }
        let token = random_token_from(random);
        self.web_token = Some(token.clone());
        (token, true)
    }

    /// Sets the server password; a blank one removes it.
    pub fn set_server_password(&mut self, password: &str)
        ensures
            opt_view(final(self).server_password) == if trim_spec(password@).len() == 0 {
                None
            } else {
                Some(trim_spec(password@))
            },
            final(self).server_id == old(self).server_id,
            final(self).client_id == old(self).client_id,
            final(self).web_token == old(self).web_token,
            final(self).client_passwords == old(self).client_passwords,
    {
        let t = trim_str(password);
        self.server_password = if t.len() == 0 {
            None
        } else {
            Some(string_from_chars(&t))
        };
    }

    /// Replaces the web token by a fresh one made from `random`.
    pub fn reset_web_token(&mut self, random: &[u8]) -> (r: String)
        ensures
            r@ == base64_url_no_pad(random@),
            opt_view(final(self).web_token) == Some(r@),
            final(self).server_id == old(self).server_id,
            final(self).client_id == old(self).client_id,
            final(self).server_password == old(self).server_password,
            final(self).client_passwords == old(self).client_passwords,
    {
        let token = random_token_from(random);
        self.web_token = Some(token.clone());
        token
    }

    /// Whether the server asks clients for a password.
    pub fn server_password_enabled(&self) -> (r: bool)
        ensures
            r == (self.server_password matches Some(p) && p@.len() > 0),
    {
        match &self.server_password {
            Some(p) => !p.as_str().is_empty(),
            None => false,
        }
    }
}

} // verus!
