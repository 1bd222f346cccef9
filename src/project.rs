use vstd::prelude::*;
use crate::context::{VariableContext, lookup};
use crate::value::VarValue;

verus! {

/// `m` holds the string `s` under `name`.
pub open spec fn holds_str(m: Map<Seq<char>, VarValue>, name: Seq<char>, s: Seq<char>) -> bool {
    m.contains_key(name) && m[name] is Str && m[name]->Str_0@ == s
}

/// The keys that `set_project_name_variables` writes.
pub open spec fn project_keys() -> Set<Seq<char>> {
    set!["project-name"@, "project_name"@, "crate_name"@, "within_cargo_project"@]
}

/// Whether any ancestor of the project directory holds a Cargo manifest, given
/// for each ancestor whether it holds one.
pub fn is_within_cargo_project(ancestor_has_manifest: &Vec<bool>) -> (r: bool)
    ensures
        r == exists|i: int| 0 <= i < ancestor_has_manifest.len() && ancestor_has_manifest@[i],
{
    let mut i: usize = 0;
    while i < ancestor_has_manifest.len()
        invariant
            i <= ancestor_has_manifest.len(),
            forall|j: int| 0 <= j < i ==> !ancestor_has_manifest@[j],
        decreases ancestor_has_manifest.len() - i,
    {
        if ancestor_has_manifest[i] {
            return true;
        }
        i = i + 1;
    }
    false
}

/// Records the resolved project name under both of its spellings, the crate
/// name, and whether the project lies within a Cargo project.
pub fn set_project_name_variables(
    context: &mut VariableContext,
    project_name: &ProjectNameInput,
    crate_name: &str,
    within_cargo_project: bool,
)
    requires
        old(context).wf(),
    ensures
        final(context).wf(),
        holds_str(final(context)@, "project-name"@, project_name@),
        holds_str(final(context)@, "project_name"@, project_name@),
        holds_str(final(context)@, "crate_name"@, crate_name@),
        lookup(final(context)@, "within_cargo_project"@) == Some(VarValue::Bool(within_cargo_project)),
        final(context)@.dom() == old(context)@.dom().union(project_keys()),
        forall|k: Seq<char>|
            !project_keys().contains(k) && #[trigger] old(context)@.contains_key(k)
                ==> final(context)@[k] == old(context)@[k],
{
    let ghost m0 = context@;
    context.put("project-name", VarValue::Str(String::from_str(project_name.as_str())));
    context.put("project_name", VarValue::Str(String::from_str(project_name.as_str())));
    context.put("crate_name", VarValue::Str(String::from_str(crate_name)));
    context.put("within_cargo_project", VarValue::Bool(within_cargo_project));
    proof {
        reveal_strlit("project-name");
        reveal_strlit("project_name");
        reveal_strlit("crate_name");
        reveal_strlit("within_cargo_project");
        assert("project-name"@[7] != "project_name"@[7]);
        assert("crate_name"@.len() != "within_cargo_project"@.len());
        assert(context@.dom() =~= m0.dom().union(project_keys()));
    }
}

/// The keys that `create_liquid_object` writes besides the project name.
pub open spec fn run_keys() -> Set<Seq<char>> {
    set!["crate_type"@, "authors"@, "username"@, "os-arch"@, "os_arch"@, "is_init"@]
}

/// A store filled with what is known of the run before any template is read:
/// the project name (under both spellings) where one was given, the crate
/// type, the author and user names, the OS and architecture (under both
/// spellings) and whether the project is made in place.
pub fn create_liquid_object(
    name: Option<&str>,
    crate_type: &str,
    authors: &str,
    username: &str,
    os_arch: &str,
    is_init: bool,
) -> (r: VariableContext)
    ensures
        r.wf(),
        holds_str(r@, "crate_type"@, crate_type@),
        holds_str(r@, "authors"@, authors@),
        holds_str(r@, "username"@, username@),
        holds_str(r@, "os-arch"@, os_arch@),
        holds_str(r@, "os_arch"@, os_arch@),
        lookup(r@, "is_init"@) == Some(VarValue::Bool(is_init)),
        match name {
            Some(n) => holds_str(r@, "project-name"@, n@) && holds_str(r@, "project_name"@, n@)
                && r@.dom() == run_keys().insert("project-name"@).insert("project_name"@),
            None => r@.dom() == run_keys(),
        },
{
    let mut ctx = VariableContext::new();
    match name {
        Some(n) => {
            ctx.put("project-name", VarValue::Str(String::from_str(n)));
            ctx.put("project_name", VarValue::Str(String::from_str(n)));
        },
        None => {},
    }
    ctx.put("crate_type", VarValue::Str(String::from_str(crate_type)));
    ctx.put("authors", VarValue::Str(String::from_str(authors)));
    ctx.put("username", VarValue::Str(String::from_str(username)));
    ctx.put("os-arch", VarValue::Str(String::from_str(os_arch)));
    ctx.put("os_arch", VarValue::Str(String::from_str(os_arch)));
    ctx.put("is_init", VarValue::Bool(is_init));
    proof {
        reveal_strlit("project-name");
        reveal_strlit("project_name");
        reveal_strlit("crate_type");
        reveal_strlit("authors");
        reveal_strlit("username");
        reveal_strlit("os-arch");
        reveal_strlit("os_arch");
        reveal_strlit("is_init");
        assert("project-name"@[7] != "project_name"@[7]);
        assert("os-arch"@[2] != "os_arch"@[2]);
        assert("crate_type"@.len() != "authors"@.len());
        assert("crate_type"@.len() != "username"@.len());
        assert("crate_type"@.len() != "os-arch"@.len());
        assert("crate_type"@.len() != "os_arch"@.len());
        assert("crate_type"@.len() != "is_init"@.len());
        assert("authors"@.len() != "username"@.len());
        assert("username"@.len() != "os_arch"@.len());
        assert("username"@.len() != "os-arch"@.len());
        assert("username"@.len() != "is_init"@.len());
        assert("authors"@[0] != "os-arch"@[0]);
        assert("authors"@[0] != "os_arch"@[0]);
        assert("authors"@[0] != "is_init"@[0]);
        assert("is_init"@[0] != "os-arch"@[0]);
        assert("is_init"@[0] != "os_arch"@[0]);
        match name {
            Some(n) => {
                assert(ctx@.dom() =~= run_keys().insert("project-name"@).insert("project_name"@));
            },
            None => {
                assert(ctx@.dom() =~= run_keys());
            },
        }
    }
    ctx
}

/// The project name as the template's variables give it: `project_name`
/// where that is set, else `project-name`; only a string counts.
pub open spec fn template_project_name(m: Map<Seq<char>, VarValue>) -> Option<Seq<char>> {
    let v = if m.contains_key("project_name"@) {
        Some(m["project_name"@])
    } else {
        lookup(m, "project-name"@)
    };
    match v {
        Some(VarValue::Str(s)) => Some(s@),
        _ => None,
    }
}

/// The name of the project being generated.
#[derive(Debug)]
pub struct ProjectNameInput {
    name: String,
}

impl View for ProjectNameInput {
    type V = Seq<char>;

    closed spec fn view(&self) -> Seq<char> {
        self.name@
    }
}

/// Where a project name comes from when nothing names it yet.
#[derive(Debug)]
pub enum ProjectNameResolution {
    /// The name is known.
    Resolved(ProjectNameInput),
    /// The user has to be asked.
    NeedsPrompt,
}

/// The project name is missing and must not be asked for.
#[derive(Debug)]
pub enum ProjectNameError {
    SilentWithoutName,
}

impl ProjectNameError {
    /// The human-readable text of this error.
    pub fn message(&self) -> (r: String)
        ensures
            r@ == "Option `--silent` provided, but project name was not set. Please use `--name`."@,
    {
        String::from_str("Option `--silent` provided, but project name was not set. Please use `--name`.")
    }
}

impl ProjectNameInput {
    /// A project name as given.
    pub fn new(name: String) -> (r: Self)
        ensures
            r@ == name@,
    {
        ProjectNameInput { name }
    }

    /// The name as text.
    pub fn as_str(&self) -> (r: &str)
        ensures
            r@ == self@,
    {
        self.name.as_str()
    }

    /// The name as an owned string.
    pub fn to_text(&self) -> (r: String)
        ensures
            r@ == self@,
    {
        self.name.clone()
    }

    /// Resolves the project name: the name that the template's variables set
    /// wins over the one given on the command line, which wins over the value
    /// from the environment; without any of them the user is asked, unless
    /// the run is silent, which is an error.
    pub fn try_from(
        context: &VariableContext,
        cli_name: Option<&str>,
        env_name: Option<String>,
        silent: bool,
    ) -> (r: Result<ProjectNameResolution, ProjectNameError>)
        requires
            context.wf(),
        ensures
            match template_project_name(context@) {
                Some(n) => r is Ok && r->Ok_0 is Resolved && r->Ok_0->Resolved_0@ == n,
                None => match cli_name {
                    Some(c) => r is Ok && r->Ok_0 is Resolved && r->Ok_0->Resolved_0@ == c@,
                    None => match env_name {
                        Some(e) => r is Ok && r->Ok_0 is Resolved && r->Ok_0->Resolved_0@ == e@,
                        None => if silent {
                            r is Err
                        } else {
                            r is Ok && r->Ok_0 is NeedsPrompt
                        },
                    },
                },
            },
    {
        let found = match context.get("project_name") {
            Some(v) => Some(v),
            None => context.get("project-name"),
        };
        match found {
            Some(VarValue::Str(s)) => {
                return Ok(ProjectNameResolution::Resolved(ProjectNameInput { name: s.clone() }));
            },
            _ => {},
        }
        match cli_name {
            Some(c) => Ok(ProjectNameResolution::Resolved(ProjectNameInput { name: String::from_str(c) })),
            None => match env_name {
                Some(e) => Ok(ProjectNameResolution::Resolved(ProjectNameInput { name: e })),
                None => if silent {
                    Err(ProjectNameError::SilentWithoutName)
                } else {
                    Ok(ProjectNameResolution::NeedsPrompt)
                },
            },
        }
    }
}

} // verus!
