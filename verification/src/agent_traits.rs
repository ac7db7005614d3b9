//! The fact sheet: the single shared project record that agents read from
//! and write into, one agent at a time. Fields are append/overwrite-only —
//! no field ever goes back from present to absent within a run.

use vstd::prelude::*;
use vstd::string::StringExecFns;

verus! {

/// Structured scope flags a scoping agent derives for the project.
#[derive(Clone, Copy, Debug, PartialEq, Eq, Structural)]
pub struct ProjectScope {
    pub is_crud_required: bool,
    pub is_user_login_and_logout: bool,
    pub is_external_urls_required: bool,
}

/// One route extracted from generated webserver code.
#[derive(Debug)]
pub struct RouteObject {
    pub path: String,
    pub method: String,
}

/// The shared project record.
#[derive(Debug)]
pub struct FactSheet {
    pub project_description: String,
    pub project_scope: Option<ProjectScope>,
    pub external_urls: Option<Vec<String>>,
    pub backend_code: Option<String>,
    pub api_endpoint_schema: Option<String>,
}

/// Fields only ever appear or get overwritten: nothing present in `pre` is
/// absent in `post`.
pub open spec fn fs_monotonic(pre: FactSheet, post: FactSheet) -> bool {
    &&& pre.project_scope is Some ==> post.project_scope is Some
    &&& pre.external_urls is Some ==> post.external_urls is Some
    &&& pre.backend_code is Some ==> post.backend_code is Some
    &&& pre.api_endpoint_schema is Some ==> post.api_endpoint_schema is Some
}

/// Law (fact-sheet monotonicity is preserved across a run): monotonicity
/// composes, so a run made of steps that each preserve it never moves a
/// field from present back to absent.
pub proof fn lemma_fs_monotonic_transitive(a: FactSheet, b: FactSheet, c: FactSheet)
    requires
        fs_monotonic(a, b),
        fs_monotonic(b, c),
    ensures
        fs_monotonic(a, c),
{
}

impl FactSheet {
    /// A fresh fact sheet: the description is set, every other field absent.
    pub fn new(project_description: String) -> (r: FactSheet)
        ensures
            r.project_description == project_description,
            r.project_scope is None,
            r.external_urls is None,
            r.backend_code is None,
            r.api_endpoint_schema is None,
    {
        FactSheet {
            project_description,
            project_scope: None,
            external_urls: None,
            backend_code: None,
            api_endpoint_schema: None,
        }
    }

    /// Writes (or overwrites) the project scope; every other field is kept.
    pub fn record_scope(&mut self, scope: ProjectScope)
        ensures
            final(self).project_scope == Some(scope),
            final(self).project_description == old(self).project_description,
            final(self).external_urls == old(self).external_urls,
            final(self).backend_code == old(self).backend_code,
            final(self).api_endpoint_schema == old(self).api_endpoint_schema,
            fs_monotonic(*old(self), *final(self)),
    {
        self.project_scope = Some(scope);
    }

    /// Writes (or overwrites) the url list; every other field is kept.
    pub fn record_external_urls(&mut self, urls: Vec<String>)
        ensures
            final(self).external_urls == Some(urls),
            final(self).project_description == old(self).project_description,
            final(self).project_scope == old(self).project_scope,
            final(self).backend_code == old(self).backend_code,
            final(self).api_endpoint_schema == old(self).api_endpoint_schema,
            fs_monotonic(*old(self), *final(self)),
    {
        self.external_urls = Some(urls);
    }

    /// Writes (or overwrites) the backend code; every other field is kept.
    pub fn record_backend_code(&mut self, code: String)
        ensures
            final(self).backend_code == Some(code),
            final(self).project_description == old(self).project_description,
            final(self).project_scope == old(self).project_scope,
            final(self).external_urls == old(self).external_urls,
            final(self).api_endpoint_schema == old(self).api_endpoint_schema,
            fs_monotonic(*old(self), *final(self)),
    {
        self.backend_code = Some(code);
    }

    /// Writes (or overwrites) the API endpoint schema; every other field is
    /// kept.
    pub fn record_api_endpoint_schema(&mut self, schema: String)
        ensures
            final(self).api_endpoint_schema == Some(schema),
            final(self).project_description == old(self).project_description,
            final(self).project_scope == old(self).project_scope,
            final(self).external_urls == old(self).external_urls,
            final(self).backend_code == old(self).backend_code,
            fs_monotonic(*old(self), *final(self)),
    {
        self.api_endpoint_schema = Some(schema);
    }
}

/// How an optional text field reads in a rendered fact sheet.
pub open spec fn opt_text(o: Option<Seq<char>>, present: Seq<char>) -> Seq<char> {
    match o {
        Some(_) => present,
        None => "absent"@,
    }
}

/// How a boolean flag reads in a rendered fact sheet.
pub open spec fn flag_text(b: bool) -> Seq<char> {
    if b {
        "true"@
    } else {
        "false"@
    }
}

/// How the scope flags read in a rendered fact sheet.
pub open spec fn scope_text(o: Option<ProjectScope>) -> Seq<char> {
    match o {
        Some(sc) => "crud: "@ + flag_text(sc.is_crud_required) + ", login: "@ + flag_text(
            sc.is_user_login_and_logout,
        ) + ", external urls: "@ + flag_text(sc.is_external_urls_required),
        None => "absent"@,
    }
}

/// A comma-separated reading of a list of texts.
pub open spec fn join_comma(items: Seq<Seq<char>>) -> Seq<char>
    decreases items.len(),
{
    if items.len() == 0 {
        Seq::empty()
    } else if items.len() == 1 {
        items[0]
    } else {
        items[0] + ", "@ + join_comma(items.drop_first())
    }
}

/// How the url list reads in a rendered fact sheet.
pub open spec fn urls_text(o: Option<Seq<Seq<char>>>) -> Seq<char> {
    match o {
        Some(urls) => join_comma(urls),
        None => "absent"@,
    }
}

/// The whole fact sheet rendered as one context text: every field, in a
/// fixed order, absent fields marked so.
pub open spec fn fact_sheet_context(fs: FactSheet) -> Seq<char> {
    "PROJECT DESCRIPTION: "@ + fs.project_description@ + " PROJECT SCOPE: "@ + scope_text(
        fs.project_scope,
    ) + " EXTERNAL URLS: "@ + urls_text(
        match fs.external_urls {
            Some(u) => Some(u.deep_view()),
            None => None,
        },
    ) + " BACKEND CODE: "@ + opt_text(
        match fs.backend_code {
            Some(c) => Some(c@),
            None => None,
        },
        match fs.backend_code {
            Some(c) => c@,
            None => Seq::empty(),
        },
    ) + " API ENDPOINT SCHEMA: "@ + opt_text(
        match fs.api_endpoint_schema {
            Some(c) => Some(c@),
            None => None,
        },
        match fs.api_endpoint_schema {
            Some(c) => c@,
            None => Seq::empty(),
        },
    )
}

/// Renders the tail of the url list, comma-separated, following
/// `join_comma` exactly.
fn join_urls(urls: &Vec<String>, start: usize) -> (r: String)
    requires
        start <= urls.len(),
    ensures
        r@ == join_comma(urls.deep_view().subrange(start as int, urls.len() as int)),
    decreases urls.len() - start,
{
    let ghost tail = urls.deep_view().subrange(start as int, urls.len() as int);
    if start == urls.len() {
        proof {
            assert(tail.len() == 0);
        }
        String::new()
    } else if start + 1 == urls.len() {
        urls[start].clone()
    } else {
        let mut out = urls[start].clone();
        out.append(", ");
        let rest = join_urls(urls, start + 1);
        out.append(rest.as_str());
        proof {
            assert(tail.drop_first() =~= urls.deep_view().subrange(
                start + 1 as int,
                urls.len() as int,
            ));
        }
        out
    }
}

/// Renders one optional text field.
pub fn render_opt(o: &Option<String>) -> (r: String)
    ensures
        match o {
            Some(c) => r@ == c@,
            None => r@ == "absent"@,
        },
{
    match o {
        Some(c) => c.clone(),
        None => String::from_str("absent"),
    }
}

/// Renders one boolean flag.
fn render_flag(b: bool) -> (r: String)
    ensures
        r@ == flag_text(b),
{
    if b {
        String::from_str("true")
    } else {
        String::from_str("false")
    }
}

/// Renders the whole fact sheet as one context text, following
/// `fact_sheet_context` exactly.
#[verifier::rlimit(60)]
pub fn render_fact_sheet(fs: &FactSheet) -> (r: String)
    ensures
        r@ == fact_sheet_context(*fs),
{
    let mut out = String::from_str("PROJECT DESCRIPTION: ");
    out.append(fs.project_description.as_str());
    out.append(" PROJECT SCOPE: ");
    match &fs.project_scope {
        Some(sc) => {
            out.append("crud: ");
            let f = render_flag(sc.is_crud_required);
            out.append(f.as_str());
            out.append(", login: ");
            let f = render_flag(sc.is_user_login_and_logout);
            out.append(f.as_str());
            out.append(", external urls: ");
            let f = render_flag(sc.is_external_urls_required);
            out.append(f.as_str());
        },
        None => {
            out.append("absent");
        },
    }
    out.append(" EXTERNAL URLS: ");
    match &fs.external_urls {
        Some(urls) => {
            let joined = join_urls(urls, 0);
            out.append(joined.as_str());
            proof {
                assert(urls.deep_view().subrange(0, urls.len() as int) =~= urls.deep_view());
            }
        },
        None => {
            out.append("absent");
        },
    }
    out.append(" BACKEND CODE: ");
    let code = render_opt(&fs.backend_code);
    out.append(code.as_str());
    out.append(" API ENDPOINT SCHEMA: ");
    let schema = render_opt(&fs.api_endpoint_schema);
    out.append(schema.as_str());
    proof {
        assert(out@ =~= fact_sheet_context(*fs));
    }
    out
}

} // verus!
