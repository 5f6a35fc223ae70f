//! The comments of a mod.

use vstd::prelude::*;
use vstd::string::*;

use crate::client::Modio;
use crate::errors::Error;
use crate::filter::{join_query, with_query, Filter};
use crate::request::{Method, Request};
use crate::text::{decimal, join, render};

verus! {

/// The comments of one mod of one game.
pub struct Comments {
    modio: Modio,
    game: u32,
    mod_id: u32,
}

/// The path of the comments of mod `mod_id` of game `game`.
pub open spec fn comments_path(game: u32, mod_id: u32) -> Seq<char> {
    "/games/"@ + decimal(game as nat) + "/mods/"@ + decimal(mod_id as nat) + "/comments"@
}

/// The path of the comment `id` of mod `mod_id` of game `game`.
pub open spec fn comment_path(game: u32, mod_id: u32, id: u32) -> Seq<char> {
    comments_path(game, mod_id) + "/"@ + decimal(id as nat)
}

impl Comments {
    /// The client that the requests are built for.
    pub closed spec fn modio(&self) -> Modio {
        self.modio
    }

    /// The game of the mod.
    pub closed spec fn game(&self) -> u32 {
        self.game
    }

    /// The mod that the comments belong to.
    pub closed spec fn mod_id(&self) -> u32 {
        self.mod_id
    }

    /// The paths of all comments of the mod.
    pub open spec fn all(&self) -> Seq<char> {
        comments_path(self.game(), self.mod_id())
    }

    /// The comments of mod `mod_id` of game `game`, for the client `modio`.
    pub fn new(modio: Modio, game: u32, mod_id: u32) -> (comments: Self)
        ensures
            comments.modio() == modio,
            comments.game() == game,
            comments.mod_id() == mod_id,
    {
        Self { modio, game, mod_id }
    }

    /// The path of the comments, followed by `more`.
    pub fn path(&self, more: &str) -> (path: String)
        ensures
            path@ == self.all() + more@,
    {
        let mut path = join("/games/", render(self.game).as_str());
        path.append("/mods/");
        path.append(render(self.mod_id).as_str());
        path.append("/comments");
        path.append(more);
        assert(path@ =~= self.all() + more@);
        path
    }

    /// The request that lists the comments that `filter` selects.
    pub fn list(&self, filter: &Filter) -> (built: Result<Request, Error>)
        ensures
            match self.modio()@.outgoing(
                Method::Get,
                self.modio()@.host + with_query(self.all(), filter@),
                None,
                None,
            ) {
                Some(request) => built matches Ok(made) && made@ == request,
                None => built matches Err(Error::UrlParse(_)),
            },
    {
        let uri = join_query(self.path(""), filter.to_query_string().as_str());
        proof {
            reveal_strlit("");
            assert(""@ =~= Seq::<char>::empty());
            assert(self.all() + ""@ =~= self.all());
        }
        self.modio.get(uri.as_str())
    }

    /// The request that opens the stream over the comments that `filter`
    /// selects: the request of their listing.
    pub fn iter(&self, filter: &Filter) -> (built: Result<Request, Error>)
        ensures
            match self.modio()@.outgoing(
                Method::Get,
                self.modio()@.host + with_query(self.all(), filter@),
                None,
                None,
            ) {
                Some(request) => built matches Ok(made) && made@ == request,
                None => built matches Err(Error::UrlParse(_)),
            },
    {
        self.list(filter)
    }

    /// The request that reads the comment `id`.
    pub fn get(&self, id: u32) -> (built: Result<Request, Error>)
        ensures
            match self.modio()@.outgoing(
                Method::Get,
                self.modio()@.host + comment_path(self.game(), self.mod_id(), id),
                None,
                None,
            ) {
                Some(request) => built matches Ok(made) && made@ == request,
                None => built matches Err(Error::UrlParse(_)),
            },
    {
        let uri = self.path(join("/", render(id).as_str()).as_str());
        assert(uri@ =~= comment_path(self.game(), self.mod_id(), id));
        self.modio.get(uri.as_str())
    }

    /// The request that deletes the comment `id`. It needs a client with an
    /// access token; without one the call fails before anything is built.
    pub fn delete(&self, id: u32) -> (built: Result<Request, Error>)
        ensures
            if !self.modio()@.has_token() {
                built matches Err(Error::TokenRequired)
            } else {
                match self.modio()@.outgoing(
                    Method::Delete,
                    self.modio()@.host + comment_path(self.game(), self.mod_id(), id),
                    None,
                    None,
                ) {
                    Some(request) => built matches Ok(made) && made@ == request,
                    None => built matches Err(Error::UrlParse(_)),
                }
            },
    {
        if !self.modio.has_token() {
            return Err(Error::TokenRequired);
        }
        let uri = self.path(join("/", render(id).as_str()).as_str());
        assert(uri@ =~= comment_path(self.game(), self.mod_id(), id));
        self.modio.delete(uri.as_str())
    }
}

} // verus!
