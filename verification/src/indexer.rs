//! Decisions of the repository indexer run: its settings, the checks made before any
//! file is read, and where each code unit is stored.
use vstd::prelude::*;

use crate::code::CodeUnit;
use crate::codegraph::JINA_EMBED_DIM_V4_MAX;
use crate::ids::{class_id, function_id, keyed};
use crate::model::{cat, own};
use crate::text::{chars_of, decimal, fmt_usize, string_of, trim, trim_exec};

verus! {

/// Settings of an indexer run.
#[derive(Debug, Clone)]
pub struct Cli {
    /// Repository root scanned for source files.
    pub repo: String,
    /// Path of the writable graph database.
    pub db: String,
    /// Repository id stored on every row.
    pub repo_id: String,
    /// Create the code tables and vector index when missing.
    pub init_schema: bool,
    /// Width of the dense embeddings.
    pub dimensions: u32,
    /// Most units embedded in one request.
    pub batch_units: usize,
    pub jina_model: String,
    pub jina_task: String,
    /// API token; the environment's is used when absent.
    pub jina_api_key: Option<String>,
    /// Path of a SCIP index, overriding the search under the repository.
    pub scip: Option<String>,
}

impl Cli {
    /// The defaults of the optional settings for a database and repository id: repository
    /// `.`, no schema creation, 2048 dimensions, batches of 32, model
    /// `jina-embeddings-v4`, task `code.passage`, no token and no SCIP path.
    pub fn with_defaults(db: String, repo_id: String) -> (r: Cli)
        ensures
            r.repo@ == "."@,
            r.db == db,
            r.repo_id == repo_id,
            !r.init_schema,
            r.dimensions == 2048,
            r.batch_units == 32,
            r.jina_model@ == "jina-embeddings-v4"@,
            r.jina_task@ == "code.passage"@,
            r.jina_api_key is None,
            r.scip is None,
    {
        Cli {
            repo: own("."),
            db,
            repo_id,
            init_schema: false,
            dimensions: 2048,
            batch_units: 32,
            jina_model: own("jina-embeddings-v4"),
            jina_task: own("code.passage"),
            jina_api_key: None,
            scip: None,
        }
    }
}

/// The API token of a run: the given one, else the environment's; refused when blank.
pub open spec fn api_key_of(cli_key: Option<Seq<char>>, env_key: Option<Seq<char>>) -> Result<
    Seq<char>,
    Seq<char>,
> {
    let k = match cli_key {
        Some(k) => k,
        None => match env_key {
            Some(e) => e,
            None => Seq::empty(),
        },
    };
    if trim(k).len() == 0 {
        Err("Missing Jina API credential: pass --jina-api-key or set JINA_API_KEY"@)
    } else {
        Ok(trim(k))
    }
}

/// The trimmed API token of a run, or the error that stops it.
pub fn resolve_api_key(cli_key: &Option<String>, env_key: &Option<String>) -> (r: Result<
    String,
    String,
>)
    ensures
        match api_key_of(crate::model::opt_view(*cli_key), crate::model::opt_view(*env_key)) {
            Ok(k) => r matches Ok(s) && s@ == k,
            Err(e) => r matches Err(s) && s@ == e,
        },
{
    let k: &str = match cli_key {
        Some(k) => k.as_str(),
        None => match env_key {
            Some(e) => e.as_str(),
            None => "",
        },
    };
    proof {
        reveal_strlit("");
        assert(""@ =~= Seq::<char>::empty());
    }
    let t = trim_exec(chars_of(k).as_slice());
    if t.len() == 0 {
        Err(own("Missing Jina API credential: pass --jina-api-key or set JINA_API_KEY"))
    } else {
        Ok(string_of(&t))
    }
}

/// The embedding width of a run, refused when zero or wider than 2048.
pub fn check_dimensions(dimensions: u32) -> (r: Result<usize, String>)
    ensures
        dimensions == 0 ==> (r matches Err(e) && e@ == "--dimensions must be positive"@),
        dimensions > 2048 ==> (r matches Err(e) && e@ == "--dimensions ("@ + decimal(
            dimensions as nat,
        ) + ") exceeds Jina v4 dense max 2048 for this ingest profile."@),
        0 < dimensions <= 2048 ==> r == Ok::<usize, String>(dimensions as usize),
{
    let dims = dimensions as usize;
    if dims == 0 {
        return Err(own("--dimensions must be positive"));
    }
    if dims > JINA_EMBED_DIM_V4_MAX {
        let mut e = cat("--dimensions (", string_of(&fmt_usize(dims)).as_str());
        e.append(") exceeds Jina v4 dense max 2048 for this ingest profile.");
        return Err(e);
    }
    Ok(dims)
}

/// The batch size of a run, refused when zero.
pub fn check_batch_units(batch_units: usize) -> (r: Result<usize, String>)
    ensures
        batch_units == 0 ==> (r matches Err(e) && e@ == "--batch-units must be positive"@),
        batch_units > 0 ==> r == Ok::<usize, String>(batch_units),
{
    if batch_units == 0 {
        Err(own("--batch-units must be positive"))
    } else {
        Ok(batch_units)
    }
}

/// An embedding of the wrong width for a unit is an error naming both widths and the
/// unit's signature.
pub fn check_embedding_width(width: usize, dims: usize, signature: &str) -> (r: Result<(), String>)
    ensures
        width == dims ==> r is Ok,
        width != dims ==> (r matches Err(e) && e@ == "embedding width "@ + decimal(width as nat)
            + " differs from configured "@ + decimal(dims as nat) + " for "@ + signature@),
{
    if width == dims {
        Ok(())
    } else {
        let mut e = cat("embedding width ", string_of(&fmt_usize(width)).as_str());
        e.append(" differs from configured ");
        e.append(string_of(&fmt_usize(dims)).as_str());
        e.append(" for ");
        e.append(signature);
        Err(e)
    }
}

/// Where a unit is stored: classes under their class id, everything else as functions
/// under their function id.
pub fn unit_target(repo_id: &str, unit: &CodeUnit) -> (r: (String, &'static str))
    ensures
        unit.target_table@ == "Class"@ ==> r.0@ == keyed("class:"@, repo_id@, unit.signature@)
            && r.1@ == "Class"@,
        unit.target_table@ != "Class"@ ==> r.0@ == keyed(
            "function:"@,
            repo_id@,
            unit.signature@,
        ) && r.1@ == "Function"@,
{
    if crate::text::str_eq(unit.target_table, "Class") {
        (class_id(repo_id, unit.signature.as_str()), "Class")
    } else {
        (function_id(repo_id, unit.signature.as_str()), "Function")
    }
}

} // verus!
