//! The application's configuration: a list of connection descriptors
//! and one model-API credential.
//!
//! The configuration is read out of a decoded document (see
//! [`crate::value`]).  Descriptors are numbered in document order,
//! starting from a caller-chosen first id and wrapping around after 255.

use vstd::prelude::*;
use std::collections::BTreeMap;
use crate::connection::{spec_value_connection, spec_value_connection_err, Connection};
use crate::error::Error;
use crate::value::Value;

verus! {

/// The model-API credential.
#[derive(Debug, Clone, PartialEq)]
pub struct OpenAI {
    /// The API token.
    pub token: String,
}

/// The whole configuration.
#[derive(Debug, Clone, PartialEq)]
pub struct Config {
    /// The connection descriptors, when the document lists any.
    pub connections: Option<Vec<Connection>>,
    /// The model-API credential.
    pub openai: OpenAI,
}

/// The id that follows `c`, wrapping around after 255.
pub open spec fn spec_next_id(c: u8) -> u8 {
    if c == 255 {
        0
    } else {
        (c + 1) as u8
    }
}

/// The id given to the `i`-th descriptor when numbering starts at `first`.
pub open spec fn spec_nth_id(first: u8, i: nat) -> u8
    decreases i,
{
    if i == 0 {
        first
    } else {
        spec_next_id(spec_nth_id(first, (i - 1) as nat))
    }
}

/// The credential's token in document `v`, when it is there.
pub open spec fn spec_openai_token(v: Value) -> Option<Seq<char>> {
    match v.spec_get("openai"@) {
        Some(t) => t.spec_get_str("token"@),
        None => None,
    }
}

/// Whether every table of a `connections` array yields a descriptor.
pub open spec fn spec_connections_ok(items: Seq<Value>) -> bool {
    forall|i: int| 0 <= i < items.len() ==> !spec_value_connection_err(#[trigger] items[i])
}

/// Whether document `v` is accepted as a configuration.
pub open spec fn spec_config_ok(v: Value) -> bool {
    &&& spec_openai_token(v) is Some
    &&& match v.spec_get("connections"@) {
        Some(av) => match av.spec_as_array() {
            Some(items) => spec_connections_ok(items),
            None => false,
        },
        None => true,
    }
}

/// The index of the first descriptor with id `id`.
pub open spec fn spec_first_index(cs: Seq<Connection>, id: u8) -> int
    decreases cs.len(),
{
    if cs.len() == 0 {
        0
    } else if cs[0].id == id {
        0
    } else {
        1 + spec_first_index(cs.drop_first(), id)
    }
}

proof fn lemma_first_index_at(cs: Seq<Connection>, id: u8, i: int)
    requires
        0 <= i <= cs.len(),
        forall|j: int| 0 <= j < i ==> cs[j].id != id,
        i == cs.len() || cs[i].id == id,
    ensures
        spec_first_index(cs, id) == i,
    decreases i,
{
    if i > 0 {
        lemma_first_index_at(cs.drop_first(), id, i - 1);
    }
}

impl Config {
    /// The descriptors, for a configuration known to list some.
    pub open spec fn spec_connections(self) -> Seq<Connection> {
        match self.connections {
            Some(cs) => cs@,
            None => Seq::empty(),
        }
    }

    /// Whether some descriptor carries id `id`.
    pub open spec fn spec_has_id(self, id: u8) -> bool {
        exists|i: int|
            0 <= i < self.spec_connections().len() && (#[trigger] self.spec_connections()[i]).id
                == id
    }

    /// Reads a configuration out of a decoded document.
    ///
    /// The document must carry an `openai` table with a text `token`;
    /// a `connections` entry, when there is one, must be an array whose
    /// tables each yield a descriptor.  Anything else is reported as
    /// [`Error::ParseError`].  Descriptors are numbered `first_id`,
    /// `first_id + 1`, ... in document order, wrapping around after 255.
    pub fn from_value(v: &Value, first_id: u8) -> (r: Result<Config, Error>)
        ensures
            match r {
                Ok(cfg) => {
                    &&& spec_config_ok(*v)
                    &&& Some(cfg.openai.token@) == spec_openai_token(*v)
                    &&& match v.spec_get("connections"@) {
                        Some(av) => {
                            &&& av.spec_as_array() matches Some(items)
                            &&& cfg.connections matches Some(cs)
                            &&& cfg.spec_connections().len() == av.spec_as_array()->0.len()
                            &&& forall|i: int|
                                0 <= i < cfg.spec_connections().len() ==> spec_value_connection(
                                    av.spec_as_array()->0[i],
                                    spec_nth_id(first_id, i as nat),
                                    #[trigger] cfg.spec_connections()[i],
                                )
                        },
                        None => cfg.connections is None,
                    }
                },
                Err(e) => e == Error::ParseError && !spec_config_ok(*v),
            },
    {
        let connections: Option<Vec<Connection>> = match v.get("connections") {
            Some(av) => match av.as_array() {
                Some(items) => {
                    let n = items.len();
                    let mut cs: Vec<Connection> = Vec::new();
                    let mut cur: u8 = first_id;
                    for i in 0..n
                        invariant
                            n == items@.len(),
                            v.spec_get("connections"@) matches Some(avv) && avv == *av,
                            av.spec_as_array() == Some(items@),
                            cur == spec_nth_id(first_id, i as nat),
                            cs@.len() == i,
                            forall|j: int|
                                0 <= j < i ==> spec_value_connection(
                                    items@[j],
                                    spec_nth_id(first_id, j as nat),
                                    #[trigger] cs@[j],
                                ),
                    {
                        match Connection::from_value(&items[i], cur) {
                            Ok(c) => cs.push(c),
                            Err(e) => {
                                proof {
                                    assert(!spec_config_ok(*v)) by {
                                        if spec_config_ok(*v) {
                                            let avv = v.spec_get("connections"@)->0;
                                            assert(avv == *av);
                                            assert(avv.spec_as_array() == Some(items@));
                                            assert(spec_connections_ok(items@));
                                            assert(!spec_value_connection_err(
                                                items@[i as int],
                                            ));
                                        }
                                    }
                                }
                                return Err(e);
                            },
                        }
                        cur = if cur == 255 {
                            0
                        } else {
                            cur + 1
                        };
                    }
                    proof {
                        assert forall|k: int| 0 <= k < items@.len() implies
                            !spec_value_connection_err(#[trigger] items@[k]) by {
                            assert(spec_value_connection(
                                items@[k],
                                spec_nth_id(first_id, k as nat),
                                cs@[k],
                            ));
                        }
                        assert(spec_connections_ok(items@));
                    }
                    Some(cs)
                },
                None => {
                    return Err(Error::ParseError);
                },
            },
            None => None,
        };
        let token = match v.get("openai") {
            Some(ov) => match ov.get_str("token") {
                Some(t) => t,
                None => {
                    return Err(Error::ParseError);
                },
            },
            None => {
                return Err(Error::ParseError);
            },
        };
        Ok(Config { connections, openai: OpenAI { token } })
    }

    /// One entry per descriptor id, each marked disconnected.
    pub fn default_state(&self) -> (r: BTreeMap<u8, bool>)
        ensures
            r@ == Map::<u8, bool>::new(|k: u8| self.spec_has_id(k), |k: u8| false),
    {
        broadcast use vstd::laws_cmp::group_laws_cmp;
        broadcast use vstd::std_specs::btree::group_btree_axioms;

        let mut state: BTreeMap<u8, bool> = BTreeMap::new();
        proof {
            assert(state@ =~= Map::<u8, bool>::new(
                |k: u8| exists|j: int| 0 <= j < 0 && self.spec_connections()[j].id == k,
                |k: u8| false,
            ));
        }
        match &self.connections {
            Some(connections) => {
                let n = connections.len();
                for i in 0..n
                    invariant
                        n == connections@.len(),
                        self.connections matches Some(csv) && csv@ == connections@,
                        state@ == Map::<u8, bool>::new(
                            |k: u8| exists|j: int|
                                0 <= j < i && (#[trigger] connections@[j]).id == k,
                            |k: u8| false,
                        ),
                {
                    broadcast use vstd::laws_cmp::group_laws_cmp;
                    broadcast use vstd::std_specs::btree::group_btree_axioms;

                    state.insert(connections[i].id, false);
                    proof {
                        assert(state@ =~= Map::<u8, bool>::new(
                            |k: u8| exists|j: int|
                                0 <= j < i + 1 && (#[trigger] connections@[j]).id == k,
                            |k: u8| false,
                        ));
                    }
                }
                proof {
                    assert(state@ =~= Map::<u8, bool>::new(
                        |k: u8| self.spec_has_id(k),
                        |k: u8| false,
                    ));
                }
                state
            },
            None => {
                proof {
                    assert(state@ =~= Map::<u8, bool>::new(
                        |k: u8| self.spec_has_id(k),
                        |k: u8| false,
                    ));
                }
                state
            },
        }
    }

    /// The first descriptor with id `id`.
    pub fn get_connection(&self, id: u8) -> (r: &Connection)
        requires
            self.spec_has_id(id),
        ensures
            *r == self.spec_connections()[spec_first_index(self.spec_connections(), id)],
            r.id == id,
    {
        match &self.connections {
            Some(connections) => {
                let n = connections.len();
                for i in 0..n
                    invariant
                        n == connections@.len(),
                        self.connections matches Some(csv) && csv@ == connections@,
                        self.spec_has_id(id),
                        forall|j: int| 0 <= j < i ==> (#[trigger] connections@[j]).id != id,
                {
                    if connections[i].id == id {
                        proof {
                            lemma_first_index_at(connections@, id, i as int);
                        }
                        return &connections[i];
                    }
                }
                proof {
                    assert(false);
                }
                vstd::pervasive::unreached()
            },
            None => {
                proof {
                    assert(false);
                }
                vstd::pervasive::unreached()
            },
        }
    }

    /// The database name, id and connected mark of every descriptor, in
    /// order.
    pub fn connection_names(&self) -> (r: Vec<(String, u8, bool)>)
        requires
            self.connections is Some,
        ensures
            r@.len() == self.spec_connections().len(),
            forall|i: int|
                0 <= i < r@.len() ==> {
                    &&& (#[trigger] r@[i]).0@ == self.spec_connections()[i].database@
                    &&& r@[i].1 == self.spec_connections()[i].id
                    &&& r@[i].2 == self.spec_connections()[i].active
                },
    {
        let mut names: Vec<(String, u8, bool)> = Vec::new();
        match &self.connections {
            Some(connections) => {
                let n = connections.len();
                for i in 0..n
                    invariant
                        n == connections@.len(),
                        self.connections matches Some(csv) && csv@ == connections@,
                        names@.len() == i,
                        forall|j: int|
                            0 <= j < i ==> {
                                &&& (#[trigger] names@[j]).0@ == connections@[j].database@
                                &&& names@[j].1 == connections@[j].id
                                &&& names@[j].2 == connections@[j].active
                            },
                {
                    let c = &connections[i];
                    names.push((c.database.clone(), c.id, c.active));
                }
                names
            },
            None => vstd::pervasive::unreached(),
        }
    }

    /// A copy of the configuration in which the first descriptor with id
    /// `id` carries the given connected mark.
    pub fn set_connection_active(&self, id: u8, active: bool) -> (r: Self)
        requires
            self.spec_has_id(id),
        ensures
            r.openai == self.openai,
            r.connections matches Some(cs2) && cs2@.len() == self.spec_connections().len(),
            forall|j: int|
                0 <= j < self.spec_connections().len() && j != spec_first_index(
                    self.spec_connections(),
                    id,
                ) ==> #[trigger] r.spec_connections()[j] == self.spec_connections()[j],
            r.spec_connections()[spec_first_index(self.spec_connections(), id)] == (Connection {
                active,
                ..self.spec_connections()[spec_first_index(self.spec_connections(), id)]
            }),
    {
        match &self.connections {
            Some(connections) => {
                let n = connections.len();
                let mut index: usize = 0;
                let mut found = false;
                for i in 0..n
                    invariant
                        n == connections@.len(),
                        self.connections matches Some(csv) && csv@ == connections@,
                        self.spec_has_id(id),
                        !found ==> forall|j: int|
                            0 <= j < i ==> (#[trigger] connections@[j]).id != id,
                        found ==> {
                            &&& 0 <= index < n
                            &&& index as int == spec_first_index(connections@, id)
                        },
                {
                    if !found && connections[i].id == id {
                        proof {
                            lemma_first_index_at(connections@, id, i as int);
                        }
                        index = i;
                        found = true;
                    }
                }
                proof {
                    if !found {
                        assert(false);
                    }
                }
                let mut cs2: Vec<Connection> = Vec::new();
                for j in 0..n
                    invariant
                        n == connections@.len(),
                        self.connections matches Some(csv) && csv@ == connections@,
                        0 <= index < n,
                        index as int == spec_first_index(connections@, id),
                        cs2@.len() == j,
                        forall|k: int|
                            0 <= k < j && k != index as int ==> #[trigger] cs2@[k]
                                == connections@[k],
                        j > index ==> cs2@[index as int] == (Connection {
                            active,
                            ..connections@[index as int]
                        }),
                {
                    let c = connections[j].clone();
                    if j == index {
                        cs2.push(Connection { active, ..c });
                    } else {
                        cs2.push(c);
                    }
                }
                Config {
                    connections: Some(cs2),
                    openai: OpenAI { token: self.openai.token.clone() },
                }
            },
            None => vstd::pervasive::unreached(),
        }
    }
}

} // verus!
