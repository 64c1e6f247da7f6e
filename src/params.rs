//! Parameters of a user lookup and a builder for them.
use vstd::prelude::*;

verus! {

/// What a lookup asks for: the identifiers, in order, and optional lists of
/// expansions, tweet fields and user fields.
#[derive(Debug)]
pub struct PGetUsersByIds {
    pub ids: Vec<String>,
    pub expansions: Option<Vec<String>>,
    pub tweet_fields: Option<Vec<String>>,
    pub user_fields: Option<Vec<String>>,
}

/// Why a builder could not produce parameters.
#[derive(Debug, PartialEq, Eq, Structural)]
pub enum BuildError {
    /// No identifier list was given.
    MissingIds,
    /// The identifier list was given but holds no identifier.
    EmptyIds,
}

/// Collects the parts of a `PGetUsersByIds` one at a time.
#[derive(Debug)]
pub struct PGetUsersByIdsBuilder {
    pub ids: Option<Vec<String>>,
    pub expansions: Option<Vec<String>>,
    pub tweet_fields: Option<Vec<String>>,
    pub user_fields: Option<Vec<String>>,
}

impl Default for PGetUsersByIdsBuilder {
    fn default() -> (r: Self)
        ensures
            r.ids.is_none(),
            r.expansions.is_none(),
            r.tweet_fields.is_none(),
            r.user_fields.is_none(),
    {
        PGetUsersByIdsBuilder { ids: None, expansions: None, tweet_fields: None, user_fields: None }
    }
}

impl PGetUsersByIdsBuilder {
    /// Sets the identifiers to look up, in order.
    pub fn ids(self, ids: Vec<String>) -> (r: Self)
        ensures
            r.ids == Some(ids),
            r.expansions == self.expansions,
            r.tweet_fields == self.tweet_fields,
            r.user_fields == self.user_fields,
    {
        PGetUsersByIdsBuilder { ids: Some(ids), ..self }
    }

    /// Sets the related objects to embed in the response.
    pub fn expansions(self, expansions: Vec<String>) -> (r: Self)
        ensures
            r.ids == self.ids,
            r.expansions == Some(expansions),
            r.tweet_fields == self.tweet_fields,
            r.user_fields == self.user_fields,
    {
        PGetUsersByIdsBuilder { expansions: Some(expansions), ..self }
    }

    /// Sets the tweet fields to return.
    pub fn tweet_fields(self, tweet_fields: Vec<String>) -> (r: Self)
        ensures
            r.ids == self.ids,
            r.expansions == self.expansions,
            r.tweet_fields == Some(tweet_fields),
            r.user_fields == self.user_fields,
    {
        PGetUsersByIdsBuilder { tweet_fields: Some(tweet_fields), ..self }
    }

    /// Sets the user fields to return.
    pub fn user_fields(self, user_fields: Vec<String>) -> (r: Self)
        ensures
            r.ids == self.ids,
            r.expansions == self.expansions,
            r.tweet_fields == self.tweet_fields,
            r.user_fields == Some(user_fields),
    {
        PGetUsersByIdsBuilder { user_fields: Some(user_fields), ..self }
    }

    /// The parameters collected so far; the identifier list must have been
    /// given and must not be empty, the optional lists may be absent or empty.
    pub fn build(self) -> (r: Result<PGetUsersByIds, BuildError>)
        ensures
            self.ids.is_none() <==> r == Err::<PGetUsersByIds, BuildError>(BuildError::MissingIds),
            (self.ids.is_some() && self.ids.unwrap().len() == 0) <==> r == Err::<
                PGetUsersByIds,
                BuildError,
            >(BuildError::EmptyIds),
            (self.ids.is_some() && self.ids.unwrap().len() > 0) <==> r == Ok::<
                PGetUsersByIds,
                BuildError,
            >(
                (PGetUsersByIds {
                    ids: self.ids.unwrap(),
                    expansions: self.expansions,
                    tweet_fields: self.tweet_fields,
                    user_fields: self.user_fields,
                }),
            ),
    {
        match self.ids {
            None => Err(BuildError::MissingIds),
            Some(ids) => {
                if ids.len() == 0 {
                    Err(BuildError::EmptyIds)
                } else {
                    Ok(
                        PGetUsersByIds {
                            ids,
                            expansions: self.expansions,
                            tweet_fields: self.tweet_fields,
                            user_fields: self.user_fields,
                        },
                    )
                }
            },
        }
    }
}

} // verus!
