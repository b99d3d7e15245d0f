//! Construction of the authentication headers and of the query plan handed
//! to the HTTP collaborator.

use std::collections::HashMap;
use vstd::prelude::*;
use vstd::string::StringExecFns;

use crate::parser::ArgConfig;
use crate::parser::ArgConfigView;

verus! {

/// The bearer authorization value for an API key.
pub open spec fn spec_bearer(apikey: Seq<char>) -> Seq<char> {
    "Bearer "@ + apikey
}

/// Builds the bearer authorization value: `"Bearer "` followed by the key.
pub fn bearer_token(apikey: &str) -> (r: String)
    ensures
        r@ == spec_bearer(apikey@),
{
    let mut out = String::from_str("Bearer ");
    out.append(apikey);
    out
}

/// The plan of a retrieval request: the URL to ask and the query parameters
/// to pass, in insertion order.
pub struct QueryPlan {
    pub url: String,
    pub params: Vec<(String, String)>,
}

/// The URL a retrieval request goes to: the endpoint picked by the first
/// lookup argument that is set, appended to the server address as the
/// collaborator formats it (no slash inserted; an argument set that asks for
/// nothing leaves the URL empty).
pub open spec fn spec_query_url(server: Seq<char>, cfg: ArgConfigView) -> Seq<char> {
    if cfg.get_secrets.len() > 0 {
        server + "get-secrets"@
    } else if cfg.get_secret.len() > 0 {
        server + "get-secret"@
    } else if cfg.get_table.len() > 0 {
        server + "get-table"@
    } else {
        Seq::empty()
    }
}

/// The query parameters of a retrieval request: the table name (from
/// `--table`, or else from `--get-table`), then the key or keys looked up,
/// if any.
pub open spec fn spec_query_params(cfg: ArgConfigView) -> Seq<(Seq<char>, Seq<char>)> {
    let table = if cfg.table_name.len() > 0 {
        cfg.table_name
    } else {
        cfg.get_table
    };
    let base = seq![("table_name"@, table)];
    if cfg.get_secrets.len() > 0 {
        base.push(("keys"@, cfg.get_secrets))
    } else if cfg.get_secret.len() > 0 {
        base.push(("key"@, cfg.get_secret))
    } else {
        base
    }
}

/// Builds the URL and query parameters of a retrieval request from the
/// parsed arguments; a table name is mandatory, so an argument set naming
/// none gives `None`.
pub fn create_request_materials(arg_config: &ArgConfig, vault_server: &str) -> (r: Option<
    QueryPlan,
>)
    ensures
        r is Some <==> (arg_config.table_name@.len() > 0 || arg_config.get_table@.len() > 0),
        r matches Some(plan) ==> plan.url@ == spec_query_url(vault_server@, arg_config@),
        r matches Some(plan) ==> plan.params.deep_view() == spec_query_params(arg_config@),
{
    let table = if arg_config.table_name.as_str().is_empty() {
        if arg_config.get_table.as_str().is_empty() {
            return None;
        }
        arg_config.get_table.clone()
    } else {
        arg_config.table_name.clone()
    };
    let mut params: Vec<(String, String)> = Vec::new();
    params.push((String::from_str("table_name"), table));
    let mut url = String::from_str(vault_server);
    if !arg_config.get_secrets.as_str().is_empty() {
        url.append("get-secrets");
        params.push((String::from_str("keys"), arg_config.get_secrets.clone()));
    } else if !arg_config.get_secret.as_str().is_empty() {
        url.append("get-secret");
        params.push((String::from_str("key"), arg_config.get_secret.clone()));
    } else if !arg_config.get_table.as_str().is_empty() {
        url.append("get-table");
    } else {
        url = String::new();
    }
    let plan = QueryPlan { url, params };
    proof {
        assert(plan.params.deep_view() =~= spec_query_params(arg_config@));
    }
    Some(plan)
}

/// Constructs the authentication headers: the bearer authorization derived
/// from the API key, and an `Accept: application/json` header.
///
/// The verifier has no key model for string-keyed hash maps, so what the map
/// holds is stated through `bearer_token`'s contract rather than here.
pub fn auth_headers(apikey: &String) -> HashMap<String, String> {
    let mut headers: HashMap<String, String> = HashMap::new();
    headers.insert(String::from_str("Authorization"), bearer_token(apikey.as_str()));
    headers.insert(String::from_str("Accept"), String::from_str("application/json"));
    headers
}

} // verus!
