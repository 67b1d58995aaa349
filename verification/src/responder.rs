//! Challenge responders: the key material one issuance attempt serves while
//! the authority validates it. For HTTP-01 this is a token-keyed map of key
//! authorizations, read by an externally owned route; for TLS-ALPN-01 it is
//! a per-domain self-signed certificate presented during the handshake.

use vstd::prelude::*;

verus! {

/// What one domain's challenge serves during validation: the authority's
/// token, the matching key authorization, and — for the TLS-layer strategy —
/// the DER bytes of a self-signed certificate embedding the authorization
/// digest.
pub struct ChallengeMaterial {
    pub domain: String,
    pub token: String,
    pub key_auth: String,
    pub alpn_cert: Option<Vec<u8>>,
}

/// The token-to-key-authorization pairs that a list of challenge materials
/// asks the HTTP-01 responder to serve.
pub open spec fn materials_entries(ms: Seq<ChallengeMaterial>) -> Seq<(Seq<char>, Seq<char>)> {
    ms.map_values(|m: ChallengeMaterial| (m.token@, m.key_auth@))
}

/// The key authorization the first entry with token `t` carries, if any.
pub open spec fn spec_lookup_entries(s: Seq<(Seq<char>, Seq<char>)>, t: Seq<char>) -> Option<
    Seq<char>,
>
    decreases s.len(),
{
    if s.len() == 0 {
        None
    } else if s[0].0 == t {
        Some(s[0].1)
    } else {
        spec_lookup_entries(s.drop_first(), t)
    }
}

/// The HTTP-01 responder's mapping from challenge token to key
/// authorization. It serves exactly the materials of the order being
/// validated, and is emptied as soon as the order leaves validation.
pub struct TokenMap {
    entries: Vec<(String, String)>,
}

impl TokenMap {
    /// The served (token, key authorization) pairs, in installation order.
    pub closed spec fn view(self) -> Seq<(Seq<char>, Seq<char>)> {
        self.entries@.map_values(|e: (String, String)| (e.0@, e.1@))
    }

    /// The key authorization served for `t`, if any.
    pub open spec fn spec_lookup(self, t: Seq<char>) -> Option<Seq<char>> {
        spec_lookup_entries(self.view(), t)
    }

    /// An empty responder: every token is unknown.
    pub fn new() -> (r: TokenMap)
        ensures
            r.view() == Seq::<(Seq<char>, Seq<char>)>::empty(),
    {
        let r = TokenMap { entries: Vec::new() };
        proof {
            assert(r.view() =~= Seq::<(Seq<char>, Seq<char>)>::empty());
        }
        r
    }

    /// The key authorization to answer for `token`: the exact string for a
    /// known token, nothing for an unknown one.
    pub fn lookup(&self, token: &String) -> (r: Option<&String>)
        ensures
            match r {
                Some(auth) => self.spec_lookup(token@) == Some(auth@),
                None => self.spec_lookup(token@) is None,
            },
    {
        let mut i: usize = 0;
        assert(self.view().skip(0) =~= self.view());
        while i < self.entries.len()
            invariant
                0 <= i <= self.entries@.len(),
                self.view().len() == self.entries@.len(),
                forall|j: int| 0 <= j < self.entries@.len()
                    ==> #[trigger] self.view()[j] == (self.entries@[j].0@, self.entries@[j].1@),
                spec_lookup_entries(self.view(), token@) == spec_lookup_entries(
                    self.view().skip(i as int),
                    token@,
                ),
            decreases self.entries@.len() - i,
        {
            let ghost rest = self.view().skip(i as int);
            assert(rest[0] == self.view()[i as int]);
            assert(rest.drop_first() =~= self.view().skip(i as int + 1));
            if self.entries[i].0.eq(token) {
                assert(spec_lookup_entries(rest, token@) == Some(rest[0].1));
                return Some(&self.entries[i].1);
            }
            i = i + 1;
        }
        assert(self.view().skip(self.entries@.len() as int) =~= Seq::<(Seq<char>, Seq<char>)>::empty());
        None
    }

    /// Begin serving exactly the given materials, replacing whatever was
    /// served before.
    pub fn install(&mut self, materials: &Vec<ChallengeMaterial>)
        ensures
            final(self).view() == materials_entries(materials@),
    {
        let mut out: Vec<(String, String)> = Vec::new();
        let mut i: usize = 0;
        while i < materials.len()
            invariant
                0 <= i <= materials@.len(),
                out@.len() == i,
                forall|j: int| 0 <= j < i
                    ==> #[trigger] out@[j].0@ == materials@[j].token@ && out@[j].1@
                        == materials@[j].key_auth@,
            decreases materials@.len() - i,
        {
            out.push((materials[i].token.clone(), materials[i].key_auth.clone()));
            i = i + 1;
        }
        self.entries = out;
        proof {
            assert(final(self).view() =~= materials_entries(materials@));
        }
    }

    /// Stop serving everything: the order has left validation.
    pub fn clear(&mut self)
        ensures
            final(self).view() == Seq::<(Seq<char>, Seq<char>)>::empty(),
            forall|t: Seq<char>| final(self).spec_lookup(t) is None,
    {
        self.entries = Vec::new();
        proof {
            assert(final(self).view() =~= Seq::<(Seq<char>, Seq<char>)>::empty());
        }
    }
}

/// A token's first entry decides its answer: when no earlier entry carries
/// the same token, the lookup returns exactly that entry's authorization.
pub proof fn lemma_lookup_first(entries: Seq<(Seq<char>, Seq<char>)>, i: int)
    requires
        0 <= i < entries.len(),
        forall|j: int| 0 <= j < i ==> (#[trigger] entries[j]).0 != entries[i].0,
    ensures
        spec_lookup_entries(entries, entries[i].0) == Some(entries[i].1),
    decreases i,
{
    if i > 0 {
        let rest = entries.drop_first();
        assert(rest[i - 1] == entries[i]);
        assert forall|j: int| 0 <= j < i - 1 implies (#[trigger] rest[j]).0 != rest[i - 1].0 by {
            assert(rest[j] == entries[j + 1]);
        }
        lemma_lookup_first(rest, i - 1);
    }
}

/// The TLS-ALPN-01 challenge certificate to present for the server name
/// `sni`: the one of the first material for that domain, if it has one.
pub open spec fn spec_alpn_cert_for(ms: Seq<ChallengeMaterial>, sni: Seq<char>) -> Option<Seq<u8>>
    decreases ms.len(),
{
    if ms.len() == 0 {
        None
    } else if ms[0].domain@ == sni {
        match ms[0].alpn_cert {
            Some(c) => Some(c@),
            None => None,
        }
    } else {
        spec_alpn_cert_for(ms.drop_first(), sni)
    }
}

/// Find the challenge certificate to present for `sni`.
pub fn find_alpn_cert<'a>(materials: &'a Vec<ChallengeMaterial>, sni: &String) -> (r: Option<
    &'a Vec<u8>,
>)
    ensures
        match r {
            Some(c) => spec_alpn_cert_for(materials@, sni@) == Some(c@),
            None => spec_alpn_cert_for(materials@, sni@) is None,
        },
{
    let mut i: usize = 0;
    assert(materials@.skip(0) =~= materials@);
    while i < materials.len()
        invariant
            0 <= i <= materials@.len(),
            spec_alpn_cert_for(materials@, sni@) == spec_alpn_cert_for(
                materials@.skip(i as int),
                sni@,
            ),
        decreases materials@.len() - i,
    {
        let ghost rest = materials@.skip(i as int);
        assert(rest[0] == materials@[i as int]);
        assert(rest.drop_first() =~= materials@.skip(i as int + 1));
        if materials[i].domain.eq(sni) {
            match &materials[i].alpn_cert {
                Some(c) => {
                    return Some(c);
                },
                None => {
                    return None;
                },
            }
        }
        i = i + 1;
    }
    None
}

} // verus!
