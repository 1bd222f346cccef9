use vstd::prelude::*;
use crate::filters::{case_filter_name, date_filter, CaseFilter};

verus! {

/// The names of the filters registered with a template environment.
pub uninterp spec fn filter_names(env: minijinja::Environment<'static>) -> Set<Seq<char>>;

/// The whitespace control of a template environment: whether the first
/// newline after a block tag is removed (trim), and whether the spaces and
/// tabs before a block tag are removed (lstrip).
pub uninterp spec fn block_trimming(env: minijinja::Environment<'static>) -> (bool, bool);

/// The names under which the case-conversion filters are registered.
pub open spec fn case_filter_names() -> Set<Seq<char>> {
    Set::new(|n: Seq<char>| exists|f: CaseFilter| n == case_filter_name(f))
}

/// The names of every filter that templates are offered.
pub open spec fn engine_filter_names() -> Set<Seq<char>> {
    case_filter_names().insert("date"@).insert("rhai"@)
}

/// Relies on minijinja's `Environment::new`: default syntax, built-in filters
/// only, and neither trim nor lstrip of block tags.
#[verifier::external_body]
fn new_environment() -> (r: minijinja::Environment<'static>)
    ensures
        block_trimming(r) == (false, false),
{
    minijinja::Environment::new()
}

/// Relies on minijinja's `Environment::set_trim_blocks`: sets whether the first
/// newline after a block tag is removed, and nothing else.
#[verifier::external_body]
fn set_trim_blocks(env: &mut minijinja::Environment<'static>, yes: bool)
    ensures
        block_trimming(*final(env)) == (yes, block_trimming(*old(env)).1),
        filter_names(*final(env)) == filter_names(*old(env)),
{
    env.set_trim_blocks(yes)
}

/// Relies on minijinja's `Environment::set_lstrip_blocks`: sets whether the
/// whitespace before a block tag is removed, and nothing else.
#[verifier::external_body]
fn set_lstrip_blocks(env: &mut minijinja::Environment<'static>, yes: bool)
    ensures
        block_trimming(*final(env)) == (block_trimming(*old(env)).0, yes),
        filter_names(*final(env)) == filter_names(*old(env)),
{
    env.set_lstrip_blocks(yes)
}

/// Relies on minijinja's `Environment::add_filter`, which inserts the filter
/// into the environment's table under `name`; here for a filter of one text.
#[verifier::external_body]
fn add_text_filter<F: Fn(String) -> String + Send + Sync + 'static>(
    env: &mut minijinja::Environment<'static>,
    name: &'static str,
    f: F,
)
    ensures
        filter_names(*final(env)) == filter_names(*old(env)).insert(name@),
        block_trimming(*final(env)) == block_trimming(*old(env)),
{
    env.add_filter(name, f)
}

/// Relies on minijinja's `Environment::add_filter`, which inserts the filter
/// into the environment's table under `name`; here for a filter of a text and
/// one argument.
#[verifier::external_body]
fn add_text_arg_filter<F: Fn(String, String) -> String + Send + Sync + 'static>(
    env: &mut minijinja::Environment<'static>,
    name: &'static str,
    f: F,
)
    ensures
        filter_names(*final(env)) == filter_names(*old(env)).insert(name@),
        block_trimming(*final(env)) == block_trimming(*old(env)),
{
    env.add_filter(name, f)
}

/// Registers the filters that templates may call: every case conversion
/// under its name, the date filter as `date`, and `script_filter` (which runs
/// a script file named by its argument) as `rhai`.
pub fn register_all_filters<F: Fn(String) -> String + Send + Sync + 'static>(
    env: &mut minijinja::Environment<'static>,
    script_filter: F,
)
    ensures
        filter_names(*final(env)) == filter_names(*old(env)).union(engine_filter_names()),
        block_trimming(*final(env)) == block_trimming(*old(env)),
{
    let ghost start = filter_names(*env);
    let ghost trimming = block_trimming(*env);
    let filters = CaseFilter::all();
    let mut i: usize = 0;
    while i < filters.len()
        invariant
            i <= filters.len(),
            block_trimming(*env) == trimming,
            filter_names(*env) == start.union(
                Set::new(|n: Seq<char>| exists|j: int| 0 <= j < i && n == case_filter_name(filters@[j])),
            ),
        decreases filters.len() - i,
    {
        let f = filters[i];
        add_text_filter(env, f.name(), move |s: String| -> (r: String) { f.apply(s.as_str()) });
        i = i + 1;
        proof {
            assert(filter_names(*env) =~= start.union(
                Set::new(|n: Seq<char>| exists|j: int| 0 <= j < i && n == case_filter_name(filters@[j])),
            )) by {
                assert(case_filter_name(filters@[i - 1]) == case_filter_name(f));
            }
        }
    }
    proof {
        assert(Set::new(|n: Seq<char>| exists|j: int| 0 <= j < i && n == case_filter_name(filters@[j]))
            =~= case_filter_names()) by {
            assert forall|n: Seq<char>| #[trigger] case_filter_names().contains(n) implies exists|j: int|
                0 <= j < i && n == case_filter_name(filters@[j]) by {
                let f = choose|f: CaseFilter| n == case_filter_name(f);
                assert(filters@.contains(f));
                let j = choose|j: int| 0 <= j < filters@.len() && filters@[j] == f;
                assert(n == case_filter_name(filters@[j]));
            }
        }
    }
    add_text_arg_filter(env, "date", |d: String, format: String| -> (r: String) { date_filter(d, format) });
    add_text_filter(env, "rhai", script_filter);
    proof {
        assert(filter_names(*env) =~= start.union(engine_filter_names()));
    }
}

/// A template environment with every filter registered; whitespace around
/// block tags is stripped unless `preserve_whitespace` is set.
pub fn create_liquid_engine<F: Fn(String) -> String + Send + Sync + 'static>(
    preserve_whitespace: bool,
    script_filter: F,
) -> (r: minijinja::Environment<'static>)
    ensures
        block_trimming(r) == (!preserve_whitespace, !preserve_whitespace),
        engine_filter_names().subset_of(filter_names(r)),
{
    let mut env = new_environment();
    if !preserve_whitespace {
        set_trim_blocks(&mut env, true);
        set_lstrip_blocks(&mut env, true);
    }
    register_all_filters(&mut env, script_filter);
    env
}

} // verus!
