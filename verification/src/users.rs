//! The users of the platform.

use vstd::prelude::*;
use vstd::string::*;
use vstd::utf8::encode_utf8;

use crate::client::{Modio, FORM_URL_ENCODED};
use crate::encoding::{all_plain, append_pair, lemma_decimal_plain};
use crate::errors::Error;
use crate::filter::{join_query, with_query, Filter};
use crate::request::{Method, Request};
use crate::text::{decimal, join, render};

verus! {

/// The users of the platform.
pub struct Users {
    modio: Modio,
}

/// A resource that has an owner.
#[derive(Clone, Copy, Debug)]
pub enum Resource {
    Game(u32),
    Mod(u32),
    File(u32),
}

impl Resource {
    /// The name of the resource's kind in a query.
    pub open spec fn kind(self) -> Seq<char> {
        match self {
            Resource::Game(_) => "games"@,
            Resource::Mod(_) => "mods"@,
            Resource::File(_) => "files"@,
        }
    }

    /// The id of the resource.
    pub open spec fn id(self) -> u32 {
        match self {
            Resource::Game(id) => id,
            Resource::Mod(id) => id,
            Resource::File(id) => id,
        }
    }

    /// The url-encoded pairs that name the resource: its kind, then its id.
    pub open spec fn query(self) -> Seq<char> {
        "resource_type="@ + self.kind() + "&resource_id="@ + decimal(self.id() as nat)
    }

    /// Renders the resource as url-encoded pairs.
    pub fn to_query_string(&self) -> (query: String)
        ensures
            query@ == self.query(),
    {
        let (kind, id) = match *self {
            Resource::Game(id) => ("games", id),
            Resource::Mod(id) => ("mods", id),
            Resource::File(id) => ("files", id),
        };
        let number = render(id);
        proof {
            reveal_strlit("games");
            reveal_strlit("mods");
            reveal_strlit("files");
            reveal_strlit("resource_type");
            reveal_strlit("resource_id");
            reveal_strlit("resource_type=");
            reveal_strlit("&resource_id=");
            assert(kind@ == self.kind());
            assert(all_plain(kind@));
            assert(all_plain("resource_type"@));
            assert(all_plain("resource_id"@));
            lemma_decimal_plain(id as nat);
        }
        let first = append_pair(String::new(), "resource_type", kind);
        let query = append_pair(first, "resource_id", number.as_str());
        assert(query@ =~= self.query());
        query
    }
}

/// The path of the user `id`.
pub open spec fn user_path(id: u32) -> Seq<char> {
    "/users/"@ + decimal(id as nat)
}

impl Users {
    /// The client that the requests are built for.
    pub closed spec fn modio(&self) -> Modio {
        self.modio
    }

    /// The users, for the client `modio`.
    pub fn new(modio: Modio) -> (users: Self)
        ensures
            users.modio() == modio,
    {
        Self { modio }
    }

    /// The request that lists the users that `filter` selects.
    pub fn list(&self, filter: &Filter) -> (built: Result<Request, Error>)
        ensures
            match self.modio()@.outgoing(
                Method::Get,
                self.modio()@.host + with_query("/users"@, filter@),
                None,
                None,
            ) {
                Some(request) => built matches Ok(made) && made@ == request,
                None => built matches Err(Error::UrlParse(_)),
            },
    {
        let uri = join_query(String::from_str("/users"), filter.to_query_string().as_str());
        self.modio.get(uri.as_str())
    }

    /// The request that opens the stream over the users that `filter`
    /// selects: the request of their listing.
    pub fn iter(&self, filter: &Filter) -> (built: Result<Request, Error>)
        ensures
            match self.modio()@.outgoing(
                Method::Get,
                self.modio()@.host + with_query("/users"@, filter@),
                None,
                None,
            ) {
                Some(request) => built matches Ok(made) && made@ == request,
                None => built matches Err(Error::UrlParse(_)),
            },
    {
        self.list(filter)
    }

    /// The request that reads the user `id`.
    pub fn get(&self, id: u32) -> (built: Result<Request, Error>)
        ensures
            match self.modio()@.outgoing(
                Method::Get,
                self.modio()@.host + user_path(id),
                None,
                None,
            ) {
                Some(request) => built matches Ok(made) && made@ == request,
                None => built matches Err(Error::UrlParse(_)),
            },
    {
        let uri = join("/users/", render(id).as_str());
        self.modio.get(uri.as_str())
    }

    /// The request that asks for the user who submitted `resource`: a post
    /// of the resource's url-encoded pairs. It needs a client with an access
    /// token; without one the call fails before anything is built.
    pub fn get_owner(&self, resource: Resource) -> (built: Result<Request, Error>)
        ensures
            if !self.modio()@.has_token() {
                built matches Err(Error::TokenRequired)
            } else {
                match self.modio()@.outgoing(
                    Method::Post,
                    self.modio()@.host + "/general/ownership"@,
                    Some(encode_utf8(resource.query())),
                    Some(FORM_URL_ENCODED@),
                ) {
                    Some(request) => built matches Ok(made) && made@ == request,
                    None => built matches Err(Error::UrlParse(_)),
                }
            },
    {
        if !self.modio.has_token() {
            return Err(Error::TokenRequired);
        }
        let params = resource.to_query_string();
        self.modio.submit(Method::Post, "/general/ownership", params.as_str().as_bytes_vec())
    }
}

} // verus!
