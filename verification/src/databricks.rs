//! Finding the storage behind a Databricks table: the request to the table
//! catalogue, what its answer means, and the options with which the storage
//! is opened.
use vstd::prelude::*;
use vstd::string::*;
use crate::params::find;
use crate::params::param_value;
use crate::params::Param;
use crate::text::prefixed;
use crate::text::same_text;
use crate::text::trim_end_matches;
use crate::text::without_trailing;

verus! {

/// The connector to the tables of a Databricks workspace. It holds the
/// secret of the workspace, if one was given.
#[derive(Clone, Debug)]
pub struct Databricks {
    secret: Option<Vec<Param>>,
}

impl Databricks {
    /// The entries of the connector's secret. Without a secret there are
    /// none.
    pub closed spec fn secret(&self) -> Seq<Param> {
        match self.secret {
            Some(entries) => entries@,
            None => Seq::empty(),
        }
    }

    /// A connector with the given secret.
    pub fn new(secret: Option<Vec<Param>>) -> (r: Databricks)
        ensures
            r.secret() == match secret {
                Some(entries) => entries@,
                None => Seq::<Param>::empty(),
            },
    {
        Databricks { secret }
    }

    /// The name of the connector.
    pub fn name(&self) -> (r: &'static str)
        ensures
            r@ == "Databricks"@,
    {
        "Databricks"
    }

    /// The connector serves tables.
    pub fn has_table_provider(&self) -> (r: bool)
        ensures
            r,
    {
        true
    }

    /// The token of the connector's secret, if it has one.
    pub fn token(&self) -> (r: Option<String>)
        ensures
            match r {
                Some(t) => param_value(self.secret(), "token"@) == Some(t@),
                None => param_value(self.secret(), "token"@) is None,
            },
    {
        match &self.secret {
            Some(entries) => find(entries, "token"),
            None => None,
        }
    }

    /// The options with which the storage of a table is opened: the entries
    /// of the connector's secret but the token, in their order, followed by
    /// the permission to rename without a lock.
    pub fn storage_options(&self) -> (r: Vec<Param>)
        ensures
            r@.len() == handed_on(self.secret()).len() + 1,
            forall|i: int|
                0 <= i < handed_on(self.secret()).len() ==> (#[trigger] r@[i]).key@ == handed_on(
                    self.secret(),
                )[i].key@ && r@[i].value@ == handed_on(self.secret())[i].value@,
            r@.last().key@ == "AWS_S3_ALLOW_UNSAFE_RENAME"@,
            r@.last().value@ == "true"@,
    {
        match &self.secret {
            Some(entries) => storage_options(entries),
            None => {
                let empty: Vec<Param> = Vec::new();
                storage_options(&empty)
            },
        }
    }
}

/// The request that asks the table catalogue for a table.
#[derive(Clone, Debug)]
pub struct TableRequest {
    /// The address to fetch.
    pub url: String,
    /// The token to present.
    pub token: String,
}

pub open spec fn no_params_message() -> Seq<char> {
    "Dataset params not found"@
}

pub open spec fn no_endpoint_message() -> Seq<char> {
    "Endpoint not specified in dataset params"@
}

pub open spec fn missing_token() -> Seq<char> {
    "Token not found in auth provider"@
}

/// The address of a table in the catalogue of a workspace. Slashes at the
/// end of the workspace's address do not count.
pub open spec fn table_url(endpoint: Seq<char>, table_name: Seq<char>) -> Seq<char> {
    without_trailing(endpoint, '/') + "/api/2.1/unity-catalog/tables/"@ + table_name
}

/// The request for a table. `endpoint` is the dataset's parameter of that
/// name: `None` where the dataset has no parameters at all, `Some(None)`
/// where it has parameters but not this one. Both are failures, each with a
/// message of its own. Without a token the request presents a text that
/// says so.
pub fn table_request(
    endpoint: Option<Option<String>>,
    table_name: &str,
    token: Option<String>,
) -> (r: Result<TableRequest, String>)
    ensures
        match endpoint {
            None => r matches Err(message) && message@ == no_params_message(),
            Some(None) => r matches Err(message) && message@ == no_endpoint_message(),
            Some(Some(address)) => r matches Ok(request) && request.url@ == table_url(
                address@,
                table_name@,
            ) && request.token@ == match token {
                Some(t) => t@,
                None => missing_token(),
            },
        },
{
    let address = match endpoint {
        None => {
            return Err("Dataset params not found".to_owned());
        },
        Some(None) => {
            return Err("Endpoint not specified in dataset params".to_owned());
        },
        Some(Some(address)) => address,
    };
    let token = match token {
        Some(t) => t,
        None => "Token not found in auth provider".to_owned(),
    };
    let mut url = trim_end_matches(address.as_str(), '/').to_owned();
    url.append("/api/2.1/unity-catalog/tables/");
    url.append(table_name);
    Ok(TableRequest { url, token })
}

/// What the catalogue's answer means. A success gives the storage location
/// it named. Any other status is a failure that shows the status.
pub fn resolve_table_uri(succeeded: bool, status: &str, storage_location: String) -> (r: Result<
    String,
    String,
>)
    ensures
        succeeded ==> r == Ok::<String, String>(storage_location),
        !succeeded ==> (r matches Err(message) && message@
            == "Failed to retrieve databricks table URI. Status: "@ + status@),
{
    if succeeded {
        Ok(storage_location)
    } else {
        Err(prefixed("Failed to retrieve databricks table URI. Status: ", status))
    }
}

/// Whether an entry of a secret is handed on to the storage: every entry is,
/// but the token.
pub open spec fn is_storage_option(entry: Param) -> bool {
    entry.key@ != "token"@
}

/// The entries of a secret that are handed on to the storage, in their
/// order.
pub open spec fn handed_on(secret: Seq<Param>) -> Seq<Param> {
    secret.filter(|entry: Param| is_storage_option(entry))
}

/// The options with which the storage of a table is opened: the entries of
/// the secret but the token, in their order, followed by the permission to
/// rename without a lock.
pub fn storage_options(secret: &Vec<Param>) -> (r: Vec<Param>)
    ensures
        r@.len() == handed_on(secret@).len() + 1,
        forall|i: int|
            0 <= i < handed_on(secret@).len() ==> (#[trigger] r@[i]).key@ == handed_on(
                secret@,
            )[i].key@ && r@[i].value@ == handed_on(secret@)[i].value@,
        r@.last().key@ == "AWS_S3_ALLOW_UNSAFE_RENAME"@,
        r@.last().value@ == "true"@,
{
    let mut options: Vec<Param> = Vec::new();
    let mut i: usize = 0;
    proof {
        assert(secret@.take(0) =~= Seq::<Param>::empty());
        reveal(Seq::filter);
    }
    while i < secret.len()
        invariant
            i <= secret@.len(),
            options@.len() == handed_on(secret@.take(i as int)).len(),
            forall|j: int|
                0 <= j < options@.len() ==> (#[trigger] options@[j]).key@ == handed_on(
                    secret@.take(i as int),
                )[j].key@ && options@[j].value@ == handed_on(secret@.take(i as int))[j].value@,
        decreases secret@.len() - i,
    {
        let entry = &secret[i];
        proof {
            reveal(Seq::filter);
            assert(secret@.take(i + 1).drop_last() =~= secret@.take(i as int));
            assert(secret@.take(i + 1).last() == secret@[i as int]);
        }
        if !same_text(entry.key.as_str(), "token") {
            options.push(Param { key: entry.key.clone(), value: entry.value.clone() });
        }
        i += 1;
    }
    proof {
        assert(secret@.take(secret@.len() as int) =~= secret@);
    }
    options.push(Param { key: "AWS_S3_ALLOW_UNSAFE_RENAME".to_owned(), value: "true".to_owned() });
    options
}

} // verus!
