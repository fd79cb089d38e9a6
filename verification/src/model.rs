//! Where a model comes from: the parts of the reference that names it.
//!
//! A reference such as `spiceai:taxi/models/drive:latest` names the source
//! that serves the model, the path of the model at that source, and the
//! version asked for.
use vstd::prelude::*;
use vstd::string::*;
use crate::params::Param;
use crate::text::begins_with;
use crate::text::last_index_of;
use crate::text::skip_chars;
use crate::text::starts_with;
use crate::text::surround;

verus! {

/// What can go wrong while a model is loaded or run. Each failure of a
/// collaborator carries the collaborator's message.
#[derive(Clone, Debug)]
pub enum Error {
    UnknownModelSource { source: String },
    UnableToLoadModel { source: String },
    UnableToInitModel { source: String },
    UnableToQuery { source: String },
    UnableToRunModel { source: String },
    UnableToLoadRequiredSecrets,
}

/// The source that serves a reference: `localhost` for a file, `spiceai`
/// for everything else.
pub open spec fn source_of(from: Seq<char>) -> Seq<char> {
    if begins_with(from, "spiceai:"@) {
        "spiceai"@
    } else if begins_with(from, "file:/"@) {
        "localhost"@
    } else {
        "spiceai"@
    }
}

/// The path of a reference: the reference without the name of its source in
/// front, where that name is `spiceai`.
pub open spec fn path_of(from: Seq<char>) -> Seq<char> {
    if begins_with(from, "spiceai:"@) {
        from.skip(8)
    } else {
        from
    }
}

/// Where `c` stands last in `s`, or -1 where it does not stand in `s`.
pub open spec fn last_position(s: Seq<char>, c: char) -> int
    decreases s.len(),
{
    if s.len() == 0 {
        -1
    } else if s.last() == c {
        s.len() - 1
    } else {
        last_position(s.drop_last(), c)
    }
}

/// The version of a reference: what follows the last colon of its path, or
/// the whole path where it has no colon.
pub open spec fn version_of(from: Seq<char>) -> Seq<char> {
    path_of(from).skip(last_position(path_of(from), ':') + 1)
}

/// The last position of a character is the position after which the
/// character does not stand any more.
pub proof fn lemma_last_position(s: Seq<char>, c: char, i: int)
    requires
        -1 <= i < s.len(),
        i >= 0 ==> s[i] == c,
        forall|j: int| i < j < s.len() ==> s[j] != c,
    ensures
        last_position(s, c) == i,
    decreases s.len(),
{
    if s.len() > 0 && i < s.len() - 1 {
        lemma_last_position(s.drop_last(), c, i);
    }
}

/// The source that serves the model that `from` names.
pub fn source(from: &str) -> (r: String)
    ensures
        r@ == source_of(from@),
{
    if starts_with(from, "spiceai:") {
        "spiceai".to_owned()
    } else if starts_with(from, "file:/") {
        "localhost".to_owned()
    } else {
        "spiceai".to_owned()
    }
}

/// The path of the model that `from` names.
pub fn path(from: &str) -> (r: String)
    ensures
        r@ == path_of(from@),
{
    if starts_with(from, "spiceai:") {
        proof {
            reveal_strlit("spiceai:");
        }
        skip_chars(from, 8).to_owned()
    } else {
        from.to_owned()
    }
}

/// The version of the model that `from` names.
pub fn version(from: &str) -> (r: String)
    ensures
        r@ == version_of(from@),
{
    let path = path(from);
    match last_index_of(path.as_str(), ':') {
        Some(i) => {
            proof {
                lemma_last_position(path@, ':', i as int);
            }
            skip_chars(path.as_str(), i + 1).to_owned()
        },
        None => {
            proof {
                lemma_last_position(path@, ':', -1);
                assert(path@.skip(0) =~= path@);
            }
            path
        },
    }
}

/// The parameters with which a model is pulled from its source: its name,
/// and its path under the keys `path` and `from`. Without a secret for the
/// source nothing is pulled.
pub fn load_params(name: &str, from: &str, has_secret: bool) -> (r: Result<Vec<Param>, Error>)
    ensures
        !has_secret ==> r matches Err(Error::UnableToLoadRequiredSecrets),
        has_secret ==> (r matches Ok(params) && params@.len() == 3 && params@[0].key@ == "name"@
            && params@[0].value@ == name@ && params@[1].key@ == "path"@ && params@[1].value@
            == path_of(from@) && params@[2].key@ == "from"@ && params@[2].value@ == path_of(
            from@,
        )),
{
    if !has_secret {
        return Err(Error::UnableToLoadRequiredSecrets);
    }
    let mut params: Vec<Param> = Vec::new();
    params.push(Param { key: "name".to_owned(), value: name.to_owned() });
    params.push(Param { key: "path".to_owned(), value: path(from) });
    params.push(Param { key: "from".to_owned(), value: path(from) });
    Ok(params)
}

/// The query that fetches what a model runs on: every row of its first
/// dataset, oldest first.
pub fn run_query(datasets: &Vec<String>) -> (r: String)
    requires
        datasets@.len() > 0,
    ensures
        r@ == "select * from datafusion.public."@ + datasets@[0]@ + " order by ts asc"@,
{
    surround("select * from datafusion.public.", datasets[0].as_str(), " order by ts asc")
}

} // verus!
