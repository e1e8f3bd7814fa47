//! The headers every authenticated request carries: the application
//! key, the JSON accept declaration, and the bearer token.

use vstd::prelude::*;

verus! {

/// The application-identifying key header.
#[derive(Debug)]
pub struct XApiKey {
    pub key: String,
}

impl Clone for XApiKey {
    fn clone(&self) -> (r: Self)
        ensures
            r.key@ == self.key@,
    {
        XApiKey { key: self.key.clone() }
    }
}

impl XApiKey {
    /// Wraps an application key for sending.
    pub fn key(k: String) -> (r: XApiKey)
        ensures
            r.key@ == k@,
    {
        XApiKey { key: k }
    }

    /// The header's wire name.
    pub fn header_name() -> (r: &'static str)
        ensures
            r@ == "X-API-Key"@,
    {
        "X-API-Key"
    }
}

/// The three headers of an authenticated GET, in order: the
/// application key, the JSON accept declaration, and the bearer token.
pub fn request_headers(app_auth: &str, token: &str) -> (r: Vec<(String, String)>)
    ensures
        r@.len() == 3,
        r@[0].0@ == "X-API-Key"@ && r@[0].1@ == app_auth@,
        r@[1].0@ == "Accept"@ && r@[1].1@ == "application/json"@,
        r@[2].0@ == "Authorization"@ && r@[2].1@ == "Bearer "@ + token@,
{
    let mut r: Vec<(String, String)> = Vec::new();
    r.push((XApiKey::header_name().to_owned(), app_auth.to_owned()));
    r.push(("Accept".to_owned(), "application/json".to_owned()));
    let mut bearer = String::new();
    bearer.append("Bearer ");
    bearer.append(token);
    r.push(("Authorization".to_owned(), bearer));
    proof {
        assert("Bearer "@ + token@ =~= Seq::<char>::empty() + "Bearer "@ + token@);
    }
    r
}

} // verus!
