//! Configuration model and authorization resolver: groups of managed
//! endpoints, each group guarded by one bearer token.

use vstd::prelude::*;
use crate::strkit::str_eq;

verus! {

/// One physically addressable management controller.
pub struct Endpoint {
    pub name: String,
    pub address: String,
    pub username: String,
    pub secret: String,
}

/// One tenant: a bearer token and the endpoints it may control.
pub struct Group {
    pub name: String,
    pub token: String,
    pub endpoints: Vec<Endpoint>,
}

/// The whole immutable service configuration.
pub struct Config {
    pub listen_port: u16,
    pub groups: Vec<Group>,
}

/// Why a request could not be resolved to an endpoint.
#[derive(Clone, Copy, Debug, PartialEq, Eq, Structural)]
pub enum ResolveError {
    /// The bearer token matches no group.
    Unauthorized,
    /// The token's group has no endpoint of the requested name.
    NotFound,
}

/// The first group whose token equals `token`, if any.
pub open spec fn spec_find_group(groups: Seq<Group>, token: Seq<char>) -> Option<Group>
    decreases groups.len(),
{
    if groups.len() == 0 {
        None
    } else if groups[0].token@ == token {
        Some(groups[0])
    } else {
        spec_find_group(groups.drop_first(), token)
    }
}

/// The first endpoint whose name equals `name`, if any.
pub open spec fn spec_find_endpoint(endpoints: Seq<Endpoint>, name: Seq<char>) -> Option<
    Endpoint,
>
    decreases endpoints.len(),
{
    if endpoints.len() == 0 {
        None
    } else if endpoints[0].name@ == name {
        Some(endpoints[0])
    } else {
        spec_find_endpoint(endpoints.drop_first(), name)
    }
}

/// Authorization resolution: token to group, then name to endpoint.
pub open spec fn spec_resolve(c: Config, token: Seq<char>, name: Seq<char>) -> Result<
    Endpoint,
    ResolveError,
> {
    match spec_find_group(c.groups@, token) {
        None => Err(ResolveError::Unauthorized),
        Some(g) => match spec_find_endpoint(g.endpoints@, name) {
            None => Err(ResolveError::NotFound),
            Some(e) => Ok(e),
        },
    }
}

/// No group matches iff no group's token equals the input token.
pub proof fn lemma_find_group_none(groups: Seq<Group>, token: Seq<char>)
    ensures
        spec_find_group(groups, token) is None <==> (forall|i: int|
            0 <= i < groups.len() ==> groups[i].token@ != token),
    decreases groups.len(),
{
    if groups.len() > 0 && groups[0].token@ != token {
        let t = groups.drop_first();
        lemma_find_group_none(t, token);
        if spec_find_group(t, token) is None {
            assert forall|i: int| 0 <= i < groups.len() implies groups[i].token@ != token by {
                if i > 0 {
                    assert(t[i - 1] == groups[i]);
                }
            }
        } else {
            assert(exists|j: int| 0 <= j < t.len() && t[j].token@ == token);
            let j = choose|j: int| 0 <= j < t.len() && t[j].token@ == token;
            assert(groups[j + 1] == t[j]);
        }
    }
}

/// No endpoint matches iff no endpoint's name equals the input name.
pub proof fn lemma_find_endpoint_none(endpoints: Seq<Endpoint>, name: Seq<char>)
    ensures
        spec_find_endpoint(endpoints, name) is None <==> (forall|i: int|
            0 <= i < endpoints.len() ==> endpoints[i].name@ != name),
    decreases endpoints.len(),
{
    if endpoints.len() > 0 && endpoints[0].name@ != name {
        let t = endpoints.drop_first();
        lemma_find_endpoint_none(t, name);
        if spec_find_endpoint(t, name) is None {
            assert forall|i: int| 0 <= i < endpoints.len() implies endpoints[i].name@ != name by {
                if i > 0 {
                    assert(t[i - 1] == endpoints[i]);
                }
            }
        } else {
            assert(exists|j: int| 0 <= j < t.len() && t[j].name@ == name);
            let j = choose|j: int| 0 <= j < t.len() && t[j].name@ == name;
            assert(endpoints[j + 1] == t[j]);
        }
    }
}

/// A found group is the first match: its token matches, and the tokens
/// of all groups before it do not.
pub proof fn lemma_find_group_first(groups: Seq<Group>, token: Seq<char>)
    ensures
        match spec_find_group(groups, token) {
            Some(g) => exists|i: int|
                {
                    &&& 0 <= i < groups.len()
                    &&& groups[i] == g
                    &&& g.token@ == token
                    &&& forall|k: int| 0 <= k < i ==> groups[k].token@ != token
                },
            None => forall|i: int| 0 <= i < groups.len() ==> groups[i].token@ != token,
        },
    decreases groups.len(),
{
    lemma_find_group_none(groups, token);
    if groups.len() > 0 && groups[0].token@ != token {
        lemma_find_group_first(groups.drop_first(), token);
        let t = groups.drop_first();
        if let Some(g) = spec_find_group(t, token) {
            let i = choose|i: int|
                {
                    &&& 0 <= i < t.len()
                    &&& t[i] == g
                    &&& g.token@ == token
                    &&& forall|k: int| 0 <= k < i ==> t[k].token@ != token
                };
            assert(groups[i + 1] == t[i]);
            assert forall|k: int| 0 <= k < i + 1 implies groups[k].token@ != token by {
                if k > 0 {
                    assert(t[k - 1] == groups[k]);
                }
            }
        }
    } else if groups.len() > 0 {
        assert(groups[0] == spec_find_group(groups, token)->Some_0);
    }
}

impl Config {
    /// The first group whose token equals `token`, by exact character
    /// comparison, or `None` when no group's token matches.
    pub fn get_group_by_token<'a>(&'a self, token: &str) -> (r: Option<&'a Group>)
        ensures
            match r {
                Some(g) => spec_find_group(self.groups@, token@) == Some(*g),
                None => spec_find_group(self.groups@, token@) is None,
            },
    {
        let ghost gs = self.groups@;
        proof {
            assert(gs.skip(0) =~= gs);
        }
        let mut i: usize = 0;
        while i < self.groups.len()
            invariant
                gs == self.groups@,
                i <= gs.len(),
                spec_find_group(gs, token@) == spec_find_group(gs.skip(i as int), token@),
            decreases gs.len() - i,
        {
            let g = &self.groups[i];
            if str_eq(g.token.as_str(), token) {
                proof {
                    assert(gs.skip(i as int)[0] == gs[i as int]);
                }
                return Some(g);
            }
            proof {
                assert(gs.skip(i as int)[0] == gs[i as int]);
                assert(gs.skip(i as int).drop_first() =~= gs.skip(i + 1));
            }
            i = i + 1;
        }
        proof {
            assert(gs.skip(gs.len() as int) =~= Seq::<Group>::empty());
        }
        None
    }
}

impl Group {
    /// The first endpoint of this group whose name equals `name`, or
    /// `None` when the group has no endpoint of that name.
    pub fn find_endpoint<'a>(&'a self, name: &str) -> (r: Option<&'a Endpoint>)
        ensures
            match r {
                Some(e) => spec_find_endpoint(self.endpoints@, name@) == Some(*e),
                None => spec_find_endpoint(self.endpoints@, name@) is None,
            },
    {
        let ghost es = self.endpoints@;
        proof {
            assert(es.skip(0) =~= es);
        }
        let mut i: usize = 0;
        while i < self.endpoints.len()
            invariant
                es == self.endpoints@,
                i <= es.len(),
                spec_find_endpoint(es, name@) == spec_find_endpoint(es.skip(i as int), name@),
            decreases es.len() - i,
        {
            let e = &self.endpoints[i];
            if str_eq(e.name.as_str(), name) {
                proof {
                    assert(es.skip(i as int)[0] == es[i as int]);
                }
                return Some(e);
            }
            proof {
                assert(es.skip(i as int)[0] == es[i as int]);
                assert(es.skip(i as int).drop_first() =~= es.skip(i + 1));
            }
            i = i + 1;
        }
        proof {
            assert(es.skip(es.len() as int) =~= Seq::<Endpoint>::empty());
        }
        None
    }
}

impl Config {
    /// Authorization resolution for one request: find the group for the
    /// bearer token, then the named endpoint within that group.
    pub fn resolve<'a>(&'a self, token: &str, name: &str) -> (r: Result<
        &'a Endpoint,
        ResolveError,
    >)
        ensures
            match r {
                Ok(e) => spec_resolve(*self, token@, name@) == Ok::<Endpoint, ResolveError>(*e),
                Err(f) => spec_resolve(*self, token@, name@) == Err::<Endpoint, ResolveError>(f),
            },
    {
        match self.get_group_by_token(token) {
            None => Err(ResolveError::Unauthorized),
            Some(g) => match g.find_endpoint(name) {
                None => Err(ResolveError::NotFound),
                Some(e) => Ok(e),
            },
        }
    }
}

/// A token that no group is configured with is rejected as
/// `Unauthorized`, whatever endpoint name comes with it.
pub proof fn lemma_unknown_token_unauthorized(c: Config, token: Seq<char>, name: Seq<char>)
    requires
        forall|i: int| 0 <= i < c.groups@.len() ==> c.groups@[i].token@ != token,
    ensures
        spec_resolve(c, token, name) == Err::<Endpoint, ResolveError>(ResolveError::Unauthorized),
{
    lemma_find_group_none(c.groups@, token);
}

/// With a valid token, a name absent from that token's group is
/// rejected as `NotFound`, even when an endpoint of that name exists in
/// some other group.
pub proof fn lemma_absent_endpoint_not_found(c: Config, token: Seq<char>, name: Seq<char>)
    requires
        spec_find_group(c.groups@, token) matches Some(g) && forall|j: int|
            0 <= j < g.endpoints@.len() ==> g.endpoints@[j].name@ != name,
    ensures
        spec_resolve(c, token, name) == Err::<Endpoint, ResolveError>(ResolveError::NotFound),
{
    let g = spec_find_group(c.groups@, token)->Some_0;
    lemma_find_endpoint_none(g.endpoints@, name);
}

} // verus!
