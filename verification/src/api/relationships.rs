//! Relationships between users: their types, the schemas of the routes that change them,
//! and which request each change takes.
use vstd::prelude::*;
use vstd::string::StringExecFns;

use crate::text::{decimal, decimal_string};

verus! {

/// The relationship between two users.
#[derive(Clone, Copy, Debug, PartialEq, Eq, Structural, Hash, Default)]
pub enum RelationshipType {
    Suggestion,
    Implicit,
    Outgoing,
    Incoming,
    Blocked,
    #[default]
    Friends,
    /// No relationship.
    NoRelationship,
}

/// The number by which the API encodes a relationship type.
pub open spec fn spec_relationship_code(t: RelationshipType) -> u8 {
    match t {
        RelationshipType::Suggestion => 6,
        RelationshipType::Implicit => 5,
        RelationshipType::Outgoing => 4,
        RelationshipType::Incoming => 3,
        RelationshipType::Blocked => 2,
        RelationshipType::Friends => 1,
        RelationshipType::NoRelationship => 0,
    }
}

impl RelationshipType {
    /// The number by which the API encodes this relationship type.
    pub fn code(self) -> (res: u8)
        ensures
            res == spec_relationship_code(self),
    {
        match self {
            RelationshipType::Suggestion => 6,
            RelationshipType::Implicit => 5,
            RelationshipType::Outgoing => 4,
            RelationshipType::Incoming => 3,
            RelationshipType::Blocked => 2,
            RelationshipType::Friends => 1,
            RelationshipType::NoRelationship => 0,
        }
    }
}

/// The relationship type that the API encodes by `code`, if any.
pub open spec fn spec_relationship_of_code(code: u8) -> Option<RelationshipType> {
    if code == 6 {
        Some(RelationshipType::Suggestion)
    } else if code == 5 {
        Some(RelationshipType::Implicit)
    } else if code == 4 {
        Some(RelationshipType::Outgoing)
    } else if code == 3 {
        Some(RelationshipType::Incoming)
    } else if code == 2 {
        Some(RelationshipType::Blocked)
    } else if code == 1 {
        Some(RelationshipType::Friends)
    } else if code == 0 {
        Some(RelationshipType::NoRelationship)
    } else {
        None
    }
}

impl RelationshipType {
    /// The relationship type that the API encodes by `code`; none for a number above 6.
    pub fn from_code(code: u8) -> (res: Option<RelationshipType>)
        ensures
            res == spec_relationship_of_code(code),
    {
        match code {
            6 => Some(RelationshipType::Suggestion),
            5 => Some(RelationshipType::Implicit),
            4 => Some(RelationshipType::Outgoing),
            3 => Some(RelationshipType::Incoming),
            2 => Some(RelationshipType::Blocked),
            1 => Some(RelationshipType::Friends),
            0 => Some(RelationshipType::NoRelationship),
            _ => None,
        }
    }
}

/// Decoding the number of a relationship type gives the type back, and a number that
/// decodes to a type is that type's number.
pub proof fn lemma_relationship_code_round_trip(t: RelationshipType, code: u8)
    ensures
        spec_relationship_of_code(spec_relationship_code(t)) == Some(t),
        spec_relationship_of_code(code) matches Some(u) ==> spec_relationship_code(u) == code,
{
}

/// The schema of a friend request sent by username.
#[derive(Debug, Clone, PartialEq, Eq)]
pub struct FriendRequestSendSchema {
    pub username: String,
    pub discriminator: Option<String>,
}

/// The schema of the Create User Relationship route.
#[derive(Debug, Default, Clone, PartialEq, Eq)]
pub struct CreateUserRelationshipSchema {
    /// The relationship type to create (none accepts an existing or creates a new friend
    /// request).
    pub relationship_type: Option<RelationshipType>,
    /// Whether the relationship was created from a friend suggestion.
    pub from_friend_suggestion: Option<bool>,
    /// The friend token of the user to add a direct friend relationship to.
    pub friend_token: Option<String>,
}

/// Optional query parameters of the Bulk Remove Relationships route.
#[derive(Debug, Copy, Default, Clone, PartialEq, Eq, Structural)]
pub struct BulkRemoveRelationshipsQuery {
    /// Remove relationships with this type (only incoming is allowed).
    pub relationship_type: Option<RelationshipType>,
    /// Whether to only remove relationships that were flagged as spam.
    pub only_spam: Option<bool>,
}

/// How a boolean appears in a query string.
pub open spec fn bool_text(b: bool) -> Seq<char> {
    if b {
        "true"@
    } else {
        "false"@
    }
}

/// The query parameters, as (name, value) pairs, of a bulk-remove query: the relationship
/// type by its number, then `only_spam`, each only if set.
pub open spec fn spec_query_pairs(q: BulkRemoveRelationshipsQuery) -> Seq<(Seq<char>, Seq<char>)> {
    let first = match q.relationship_type {
        Some(t) => seq![("relationship_type"@, decimal(spec_relationship_code(t) as nat))],
        None => Seq::empty(),
    };
    let second = match q.only_spam {
        Some(b) => seq![("only_spam"@, bool_text(b))],
        None => Seq::empty(),
    };
    first + second
}

/// A query parameter as characters.
pub open spec fn pair_view(p: (&'static str, String)) -> (Seq<char>, Seq<char>) {
    (p.0@, p.1@)
}

impl BulkRemoveRelationshipsQuery {
    /// The query as query-string parameters.
    pub fn to_query(self) -> (res: Vec<(&'static str, String)>)
        ensures
            res@.map_values(|p: (&'static str, String)| pair_view(p)) == spec_query_pairs(self),
    {
        let mut query: Vec<(&'static str, String)> = Vec::new();

        if let Some(relationship_type) = self.relationship_type {
            query.push(("relationship_type", decimal_string(relationship_type.code() as u64)));
        }

        if let Some(only_spam) = self.only_spam {
            let text = if only_spam {
                String::from_str("true")
            } else {
                String::from_str("false")
            };
            query.push(("only_spam", text));
        }

        proof {
            assert(query@.map_values(|p: (&'static str, String)| pair_view(p)) =~= spec_query_pairs(self));
        }
        query
    }
}

/// The request that changes a relationship to a given type.
#[derive(Debug, Clone, PartialEq, Eq)]
pub enum RelationshipRequest {
    /// Delete the relationship.
    Delete,
    /// Create or update the relationship with this schema.
    Put(CreateUserRelationshipSchema),
    /// Nothing can be requested; the change succeeds without a request.
    Nothing,
}

/// The request that changes the relationship with a user to `t`: removing it deletes the
/// relationship; friends, incoming and outgoing send (or accept) a friend request; blocking
/// puts a blocked relationship; suggestions and implicit relationships cannot be requested.
pub open spec fn spec_relationship_request(t: RelationshipType) -> RelationshipRequest {
    match t {
        RelationshipType::NoRelationship => RelationshipRequest::Delete,
        RelationshipType::Friends | RelationshipType::Incoming | RelationshipType::Outgoing =>
            RelationshipRequest::Put(
            CreateUserRelationshipSchema {
                relationship_type: None,
                from_friend_suggestion: None,
                friend_token: None,
            },
        ),
        RelationshipType::Blocked => RelationshipRequest::Put(
            CreateUserRelationshipSchema {
                relationship_type: Some(RelationshipType::Blocked),
                from_friend_suggestion: None,
                friend_token: None,
            },
        ),
        RelationshipType::Suggestion | RelationshipType::Implicit => RelationshipRequest::Nothing,
    }
}

/// The request that changes the relationship with a user to `relationship_type`.
pub fn relationship_request(relationship_type: RelationshipType) -> (res: RelationshipRequest)
    ensures
        res == spec_relationship_request(relationship_type),
{
    match relationship_type {
        RelationshipType::NoRelationship => RelationshipRequest::Delete,
        RelationshipType::Friends | RelationshipType::Incoming | RelationshipType::Outgoing => {
            RelationshipRequest::Put(
                CreateUserRelationshipSchema {
                    relationship_type: None,
                    from_friend_suggestion: None,
                    friend_token: None,
                },
            )
        },
        RelationshipType::Blocked => RelationshipRequest::Put(
            CreateUserRelationshipSchema {
                relationship_type: Some(RelationshipType::Blocked),
                from_friend_suggestion: None,
                friend_token: None,
            },
        ),
        RelationshipType::Suggestion | RelationshipType::Implicit => RelationshipRequest::Nothing,
    }
}

} // verus!

verus! {

/// Changing a relationship: only removing it deletes it; blocking puts a relationship whose
/// type is blocked; befriending (friends, incoming, outgoing) puts one without a type, which
/// sends or accepts a friend request; suggestions and implicit relationships are never
/// requested.
pub proof fn lemma_relationship_requests(t: RelationshipType)
    ensures
        spec_relationship_request(t) is Delete <==> t == RelationshipType::NoRelationship,
        spec_relationship_request(t) is Nothing <==> (t == RelationshipType::Suggestion || t
            == RelationshipType::Implicit),
        spec_relationship_request(t) matches RelationshipRequest::Put(schema) ==> (schema.from_friend_suggestion
            is None && schema.friend_token is None && (schema.relationship_type == Some(
            RelationshipType::Blocked) <==> t == RelationshipType::Blocked) && (schema.relationship_type
            is None <==> t != RelationshipType::Blocked)),
{
}

} // verus!
