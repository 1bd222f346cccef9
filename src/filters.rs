use vstd::prelude::*;
use heck::{
    ToKebabCase, ToLowerCamelCase, ToPascalCase, ToShoutyKebabCase, ToShoutySnakeCase, ToSnakeCase,
    ToTitleCase, ToUpperCamelCase,
};

verus! {

/// The kebab-case: lower-case words joined by hyphens form of a text.
pub uninterp spec fn kebab_case_of(s: Seq<char>) -> Seq<char>;

/// Relies on heck's `ToKebabCase::to_kebab_case`, a function of the text alone.
#[verifier::external_body]
fn kebab_case(s: &str) -> (r: String)
    ensures
        r@ == kebab_case_of(s@),
{
    s.to_kebab_case()
}

/// The lowerCamelCase form of a text.
pub uninterp spec fn lower_camel_case_of(s: Seq<char>) -> Seq<char>;

/// Relies on heck's `ToLowerCamelCase::to_lower_camel_case`, a function of the text alone.
#[verifier::external_body]
fn lower_camel_case(s: &str) -> (r: String)
    ensures
        r@ == lower_camel_case_of(s@),
{
    s.to_lower_camel_case()
}

/// Relies on heck's `ToPascalCase::to_pascal_case`, which is
/// `to_upper_camel_case` under another name.
#[verifier::external_body]
fn pascal_case(s: &str) -> (r: String)
    ensures
        r@ == upper_camel_case_of(s@),
{
    s.to_pascal_case()
}

/// The SHOUTY-KEBAB-CASE form of a text.
pub uninterp spec fn shouty_kebab_case_of(s: Seq<char>) -> Seq<char>;

/// Relies on heck's `ToShoutyKebabCase::to_shouty_kebab_case`, a function of the text alone.
#[verifier::external_body]
fn shouty_kebab_case(s: &str) -> (r: String)
    ensures
        r@ == shouty_kebab_case_of(s@),
{
    s.to_shouty_kebab_case()
}

/// The SHOUTY_SNAKE_CASE form of a text.
pub uninterp spec fn shouty_snake_case_of(s: Seq<char>) -> Seq<char>;

/// Relies on heck's `ToShoutySnakeCase::to_shouty_snake_case`, a function of the text alone.
#[verifier::external_body]
fn shouty_snake_case(s: &str) -> (r: String)
    ensures
        r@ == shouty_snake_case_of(s@),
{
    s.to_shouty_snake_case()
}

/// The snake_case form of a text.
pub uninterp spec fn snake_case_of(s: Seq<char>) -> Seq<char>;

/// Relies on heck's `ToSnakeCase::to_snake_case`, a function of the text alone.
#[verifier::external_body]
fn snake_case(s: &str) -> (r: String)
    ensures
        r@ == snake_case_of(s@),
{
    s.to_snake_case()
}

/// The Title Case form of a text.
pub uninterp spec fn title_case_of(s: Seq<char>) -> Seq<char>;

/// Relies on heck's `ToTitleCase::to_title_case`, a function of the text alone.
#[verifier::external_body]
fn title_case(s: &str) -> (r: String)
    ensures
        r@ == title_case_of(s@),
{
    s.to_title_case()
}

/// The UpperCamelCase form of a text.
pub uninterp spec fn upper_camel_case_of(s: Seq<char>) -> Seq<char>;

/// Relies on heck's `ToUpperCamelCase::to_upper_camel_case`, a function of the text alone.
#[verifier::external_body]
fn upper_camel_case(s: &str) -> (r: String)
    ensures
        r@ == upper_camel_case_of(s@),
{
    s.to_upper_camel_case()
}

/// The case-conversion filters offered to templates.
#[derive(PartialEq, Eq, Structural, Clone, Copy, Debug)]
pub enum CaseFilter {
    Kebab,
    LowerCamel,
    Pascal,
    ShoutyKebab,
    ShoutySnake,
    Snake,
    Title,
    UpperCamel,
}

/// What a case-conversion filter makes of a text.
pub open spec fn case_converted(f: CaseFilter, s: Seq<char>) -> Seq<char> {
    match f {
        CaseFilter::Kebab => kebab_case_of(s),
        CaseFilter::LowerCamel => lower_camel_case_of(s),
        CaseFilter::Pascal => upper_camel_case_of(s),
        CaseFilter::ShoutyKebab => shouty_kebab_case_of(s),
        CaseFilter::ShoutySnake => shouty_snake_case_of(s),
        CaseFilter::Snake => snake_case_of(s),
        CaseFilter::Title => title_case_of(s),
        CaseFilter::UpperCamel => upper_camel_case_of(s),
    }
}

impl CaseFilter {
    /// Every case-conversion filter, each once.
    pub fn all() -> (r: Vec<CaseFilter>)
        ensures
            r@.len() == 8,
            forall|f: CaseFilter| #[trigger] r@.contains(f),
    {
        let r = vec![CaseFilter::Kebab, CaseFilter::LowerCamel, CaseFilter::Pascal, CaseFilter::ShoutyKebab, CaseFilter::ShoutySnake, CaseFilter::Snake, CaseFilter::Title, CaseFilter::UpperCamel];
        proof {
            assert forall|f: CaseFilter| #[trigger] r@.contains(f) by {
                match f {
                    CaseFilter::Kebab => assert(r@[0] == f),
                    CaseFilter::LowerCamel => assert(r@[1] == f),
                    CaseFilter::Pascal => assert(r@[2] == f),
                    CaseFilter::ShoutyKebab => assert(r@[3] == f),
                    CaseFilter::ShoutySnake => assert(r@[4] == f),
                    CaseFilter::Snake => assert(r@[5] == f),
                    CaseFilter::Title => assert(r@[6] == f),
                    CaseFilter::UpperCamel => assert(r@[7] == f),
                }
            }
        }
        r
    }

    /// The name under which templates call the filter.
    pub fn name(&self) -> (r: &'static str)
        ensures
            r@ == case_filter_name(*self),
    {
        match self {
            CaseFilter::Kebab => "kebab_case",
            CaseFilter::LowerCamel => "lower_camel_case",
            CaseFilter::Pascal => "pascal_case",
            CaseFilter::ShoutyKebab => "shouty_kebab_case",
            CaseFilter::ShoutySnake => "shouty_snake_case",
            CaseFilter::Snake => "snake_case",
            CaseFilter::Title => "title_case",
            CaseFilter::UpperCamel => "upper_camel_case",
        }
    }

    /// Converts a text with this filter.
    pub fn apply(&self, s: &str) -> (r: String)
        ensures
            r@ == case_converted(*self, s@),
    {
        match self {
            CaseFilter::Kebab => kebab_case(s),
            CaseFilter::LowerCamel => lower_camel_case(s),
            CaseFilter::Pascal => pascal_case(s),
            CaseFilter::ShoutyKebab => shouty_kebab_case(s),
            CaseFilter::ShoutySnake => shouty_snake_case(s),
            CaseFilter::Snake => snake_case(s),
            CaseFilter::Title => title_case(s),
            CaseFilter::UpperCamel => upper_camel_case(s),
        }
    }
}

/// The name under which templates call a case-conversion filter.
pub open spec fn case_filter_name(f: CaseFilter) -> Seq<char> {
    match f {
        CaseFilter::Kebab => "kebab_case"@,
        CaseFilter::LowerCamel => "lower_camel_case"@,
        CaseFilter::Pascal => "pascal_case"@,
        CaseFilter::ShoutyKebab => "shouty_kebab_case"@,
        CaseFilter::ShoutySnake => "shouty_snake_case"@,
        CaseFilter::Snake => "snake_case"@,
        CaseFilter::Title => "title_case"@,
        CaseFilter::UpperCamel => "upper_camel_case"@,
    }
}

/// The first `n` characters of `s` from position `from` on, as far as `s`
/// reaches.
pub open spec fn chars_from(s: Seq<char>, from: int, n: int) -> Seq<char> {
    let a = if from < s.len() { from } else { s.len() as int };
    let b = if from + n < s.len() { from + n } else { s.len() as int };
    s.subrange(a, b)
}

/// What the date filter makes of `date` (whose UTF-8 encoding is `byte_len`
/// bytes long, as a `usize` counts it) under the format `format`: the year for `%Y`, the month for
/// `%m` and the day for `%d`, taken at fixed places of an ISO-like date; a date
/// too short for the month or the day, or any other format, gives the date
/// unchanged.
pub open spec fn date_part(date: Seq<char>, byte_len: int, format: Seq<char>) -> Seq<char> {
    if format == "%Y"@ {
        chars_from(date, 0, 4)
    } else if format == "%m"@ {
        if byte_len >= 7 {
            chars_from(date, 5, 2)
        } else {
            date
        }
    } else if format == "%d"@ {
        if byte_len >= 10 {
            chars_from(date, 8, 2)
        } else {
            date
        }
    } else {
        date
    }
}

fn slice_chars(s: &str, from: usize, n: usize) -> (r: String)
    requires
        from + n <= usize::MAX,
    ensures
        r@ == chars_from(s@, from as int, n as int),
{
    let len = s.unicode_len();
    let a = if from < len { from } else { len };
    let b = if from + n < len { from + n } else { len };
    String::from_str(s.substring_char(a, b))
}

/// The date filter: extracts the year, month or day of an ISO-like date.
pub fn date_filter(date_str: String, format_str: String) -> (r: String)
    ensures
        r@ == date_part(date_str@, (vstd::utf8::encode_utf8(date_str@).len() as usize) as int, format_str@),
{
    let year = String::from_str("%Y");
    let month = String::from_str("%m");
    let day = String::from_str("%d");
    if format_str.eq(&year) {
        slice_chars(date_str.as_str(), 0, 4)
    } else if format_str.eq(&month) {
        if date_str.as_str().len() >= 7 {
            slice_chars(date_str.as_str(), 5, 2)
        } else {
            date_str
        }
    } else if format_str.eq(&day) {
        if date_str.as_str().len() >= 10 {
            slice_chars(date_str.as_str(), 8, 2)
        } else {
            date_str
        }
    } else {
        date_str
    }
}

/// Relies on rhai's `Engine::eval` and the `Display` of its `Dynamic`: runs a
/// script in a fresh engine and gives the text of its value, or `None` where
/// the script does not compile or fails.
#[verifier::external_body]
fn execute_rhai_script(script: &str) -> (r: Option<String>) {
    rhai::Engine::new().eval::<rhai::Dynamic>(script).ok().map(|d| d.to_string())
}

/// What the script filter gives: the script's result where the script was
/// read and ran, else the filter's argument, the script's file name,
/// unchanged.
pub fn rhai_filter_result(filename: &str, result: Option<String>) -> (r: String)
    ensures
        match result {
            Some(out) => r@ == out@,
            None => r@ == filename@,
        },
{
    match result {
        Some(out) => out,
        None => String::from_str(filename),
    }
}

/// The script filter on the text of a script file, where it could be read:
/// runs the script and gives its result; a script that could not be read or
/// failed gives the file name unchanged.
pub fn rhai_filter(filename: &str, script: Option<&str>) -> (r: String)
    ensures
        script is None ==> r@ == filename@,
{
    match script {
        Some(text) => rhai_filter_result(filename, execute_rhai_script(text)),
        None => rhai_filter_result(filename, None),
    }
}

/// The script files that templates have used as filters, by their path
/// relative to the template root.
#[derive(Debug)]
pub struct FilterScripts {
    paths: Vec<String>,
}

impl View for FilterScripts {
    type V = Seq<Seq<char>>;

    closed spec fn view(&self) -> Seq<Seq<char>> {
        self.paths@.map_values(|p: String| p@)
    }
}

impl FilterScripts {
    /// No script recorded.
    pub fn new() -> (r: Self)
        ensures
            r@ == Seq::<Seq<char>>::empty(),
    {
        FilterScripts { paths: Vec::new() }
    }

    /// Records a script file used as a filter.
    pub fn record(&mut self, path: &str)
        ensures
            final(self)@ == old(self)@.push(path@),
    {
        self.paths.push(String::from_str(path));
        proof {
            assert(final(self)@ =~= old(self)@.push(path@));
        }
    }

    /// Whether `path` was recorded as a filter script.
    pub fn contains(&self, path: &str) -> (r: bool)
        ensures
            r == self@.contains(path@),
    {
        let key = String::from_str(path);
        let mut i: usize = 0;
        while i < self.paths.len()
            invariant
                i <= self.paths.len(),
                key@ == path@,
                forall|j: int| 0 <= j < i ==> self.paths@[j]@ != path@,
            decreases self.paths.len() - i,
        {
            if self.paths[i].eq(&key) {
                proof {
                    assert(self@[i as int] == path@);
                }
                return true;
            }
            i = i + 1;
        }
        proof {
            if self@.contains(path@) {
                let j = choose|j: int| 0 <= j < self@.len() && self@[j] == path@;
                assert(self.paths@[j]@ == path@);
            }
        }
        false
    }
}

} // verus!
