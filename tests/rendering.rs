use scaffold_core::context::VariableContext;
use scaffold_core::engine::create_liquid_engine;
use scaffold_core::filters::{date_filter, rhai_filter, rhai_filter_result, CaseFilter, FilterScripts};
use scaffold_core::render::{render_string_gracefully, settle_render, substitute_filename, RenderMode};
use scaffold_core::walk::{
    finish_walk, plan_entry, process_file, process_rename, EntryStep, FileErrors, FileOutcome,
    MoveOutcome, ShouldInclude, rename_outcome, file_outcome,
};

fn ran(name: String) -> String {
    format!("ran {name}")
}

fn same(name: String) -> String {
    name
}

fn demo_context() -> VariableContext {
    let mut ctx = VariableContext::new();
    ctx.set_string("project_name", "demo".to_string()).unwrap();
    ctx.set_string("author", "Ada".to_string()).unwrap();
    ctx
}

#[test]
fn date_filter_parts() {
    assert_eq!(date_filter("2024-03-07".to_string(), "%Y".to_string()), "2024");
    assert_eq!(date_filter("2024-03-07".to_string(), "%m".to_string()), "03");
    assert_eq!(date_filter("2024-03-07".to_string(), "%d".to_string()), "07");
    assert_eq!(date_filter("2024-03-07".to_string(), "%H".to_string()), "2024-03-07");
}

#[test]
fn date_filter_short_input() {
    assert_eq!(date_filter("24".to_string(), "%Y".to_string()), "24");
    assert_eq!(date_filter("2024-0".to_string(), "%m".to_string()), "2024-0");
    assert_eq!(date_filter("2024-03-0".to_string(), "%d".to_string()), "2024-03-0");
    assert_eq!(date_filter("".to_string(), "%Y".to_string()), "");
}

#[test]
fn case_conversions() {
    assert_eq!(CaseFilter::Kebab.apply("My Cool Thing"), "my-cool-thing");
    assert_eq!(CaseFilter::ShoutySnake.apply("My Cool Thing"), "MY_COOL_THING");
    assert_eq!(CaseFilter::Snake.apply("My Cool Thing"), "my_cool_thing");
    assert_eq!(CaseFilter::ShoutyKebab.apply("My Cool Thing"), "MY-COOL-THING");
    assert_eq!(CaseFilter::LowerCamel.apply("My Cool Thing"), "myCoolThing");
    assert_eq!(CaseFilter::Pascal.apply("my cool thing"), "MyCoolThing");
    assert_eq!(CaseFilter::UpperCamel.apply("my cool thing"), "MyCoolThing");
    assert_eq!(CaseFilter::Title.apply("my_cool_thing"), "My Cool Thing");
}

#[test]
fn case_filter_names() {
    let names: Vec<&str> = CaseFilter::all().iter().map(|f| f.name()).collect();
    assert_eq!(
        names,
        vec![
            "kebab_case",
            "lower_camel_case",
            "pascal_case",
            "shouty_kebab_case",
            "shouty_snake_case",
            "snake_case",
            "title_case",
            "upper_camel_case"
        ]
    );
}

#[test]
fn script_filter_results() {
    assert_eq!(rhai_filter("calc.rhai", Some("40 + 2")), "42");
    assert_eq!(rhai_filter("calc.rhai", None), "calc.rhai");
    assert_eq!(rhai_filter("broken.rhai", Some("let x = ;")), "broken.rhai");
    assert_eq!(rhai_filter_result("f.rhai", Some("out".to_string())), "out");
    assert_eq!(rhai_filter_result("f.rhai", None), "f.rhai");
}

#[test]
fn filter_scripts_are_recorded() {
    let mut scripts = FilterScripts::new();
    assert!(!scripts.contains("filters/x.rhai"));
    scripts.record("filters/x.rhai");
    assert!(scripts.contains("filters/x.rhai"));
    assert!(!scripts.contains("filters/y.rhai"));
}

#[test]
fn renders_variables_and_filters() {
    let ctx = demo_context();
    let out = render_string_gracefully(&ctx, "Hello {{author}} of {{ project_name | shouty_snake_case }}", false, &ran, RenderMode::CollectErrors);
    assert_eq!(out.ok().unwrap(), "Hello Ada of DEMO");
    let out = render_string_gracefully(&ctx, "{{ \"2024-03-07\" | date(\"%m\") }}", false, &ran, RenderMode::CollectErrors);
    assert_eq!(out.ok().unwrap(), "03");
}

#[test]
fn undefined_variable_never_fails() {
    let ctx = demo_context();
    for mode in [RenderMode::CollectErrors, RenderMode::FallbackSilently] {
        let out = render_string_gracefully(&ctx, "Hi {{ nobody }}!", false, &ran, mode).ok().unwrap();
        assert!(out == "Hi !" || out == "Hi {{ nobody }}!");
    }
}

#[test]
fn failing_filter_gives_input_back() {
    let ctx = demo_context();
    let text = "{{ author | no_such_filter }}";
    let out = render_string_gracefully(&ctx, text, false, &ran, RenderMode::CollectErrors).ok().unwrap();
    assert_eq!(out, text);
}

#[test]
fn syntax_error_by_mode() {
    let ctx = demo_context();
    let text = "{% if %}broken";
    let err = render_string_gracefully(&ctx, text, false, &ran, RenderMode::CollectErrors).err().unwrap();
    assert!(!err.message.is_empty());
    let out = render_string_gracefully(&ctx, text, false, &ran, RenderMode::FallbackSilently).ok().unwrap();
    assert_eq!(out, text);
}

#[test]
fn settle_keeps_input_on_failure() {
    assert_eq!(settle_render("a {{x}}", None), "a {{x}}");
    assert_eq!(settle_render("a {{x}}", Some("a 1".to_string())), "a 1");
}

#[test]
fn filename_substitution() {
    let ctx = demo_context();
    assert_eq!(substitute_filename(&ctx, "{{project_name}}/main.txt", false, &ran), "demo/main.txt");
    assert_eq!(substitute_filename(&ctx, "{% bad/main.txt", false, &ran), "{% bad/main.txt");
    assert_eq!(substitute_filename(&ctx, "plain.txt", false, &ran), "plain.txt");
}

#[test]
fn plan_follows_verdict() {
    let mut scripts = FilterScripts::new();
    scripts.record("f.rhai");
    assert!(plan_entry("f.rhai", true, ShouldInclude::Include, &scripts) == EntryStep::SkipFilterScript);
    assert!(plan_entry("a.txt", true, ShouldInclude::Include, &scripts) == EntryStep::RenderFile);
    assert!(plan_entry("dir", false, ShouldInclude::Include, &scripts) == EntryStep::RenameDir);
    assert!(plan_entry("a.bin", true, ShouldInclude::Exclude, &scripts) == EntryStep::RelocateExcluded);
    assert!(plan_entry("a.tmp", true, ShouldInclude::Ignore, &scripts) == EntryStep::Ignore);
}

#[test]
fn end_to_end_file() {
    let mut ctx = VariableContext::new();
    ctx.set_string("project_name", "demo".to_string()).unwrap();
    ctx.set_string("author", "Ada".to_string()).unwrap();
    let mut errors = FileErrors::new();
    let out = process_file(&ctx, &mut errors, "{{project_name}}/main.txt", "Hello {{author}}", false, &ran);
    match out {
        FileOutcome::Write { dest, content, remove_source } => {
            assert_eq!(dest, "demo/main.txt");
            assert_eq!(content, "Hello Ada");
            assert!(remove_source);
        }
        FileOutcome::Failed => panic!("expected a write"),
    }
    assert!(errors.is_empty());
    assert!(finish_walk(&errors).is_ok());
}

#[test]
fn unrenamed_file_keeps_source() {
    let ctx = demo_context();
    let mut errors = FileErrors::new();
    match process_file(&ctx, &mut errors, "README.md", "# {{project_name}}", false, &ran) {
        FileOutcome::Write { dest, content, remove_source } => {
            assert_eq!(dest, "README.md");
            assert_eq!(content, "# demo");
            assert!(!remove_source);
        }
        FileOutcome::Failed => panic!("expected a write"),
    }
}

#[test]
fn invalid_content_is_recorded_once() {
    let ctx = demo_context();
    let mut errors = FileErrors::new();
    let out = process_file(&ctx, &mut errors, "src/bad.txt", "{% for %}", false, &ran);
    assert!(matches!(out, FileOutcome::Failed));
    assert_eq!(errors.len(), 1);
    assert_eq!(errors.path(0), "src/bad.txt");
    assert!(!errors.message(0).is_empty());
    assert_eq!(finish_walk(&errors).err().unwrap(), "\tsrc/bad.txt\n");
}

#[test]
fn error_list_names_every_file() {
    let mut errors = FileErrors::new();
    errors.push("a.txt", "m1".to_string());
    errors.push("b/c.txt", "m2".to_string());
    assert_eq!(finish_walk(&errors).err().unwrap(), "\ta.txt\n\tb/c.txt\n");
}

#[test]
fn excluded_file_under_renamed_dir_moves() {
    let ctx = demo_context();
    match process_rename(&ctx, "{{project_name}}/data.bin", false, &ran) {
        MoveOutcome::Move { dest } => assert_eq!(dest, "demo/data.bin"),
        MoveOutcome::Stay => panic!("expected a move"),
    }
    assert!(matches!(process_rename(&ctx, "assets/data.bin", false, &ran), MoveOutcome::Stay));
    assert!(matches!(process_rename(&ctx, "{% x/data.bin", false, &ran), MoveOutcome::Stay));
}

#[test]
fn engine_registers_every_filter() {
    let ctx = demo_context();
    let text = "{{ \"My Cool Thing\" | kebab_case }} {{ \"my thing\" | lower_camel_case }} {{ \"my thing\" | pascal_case }} {{ \"my thing\" | shouty_kebab_case }} {{ \"my thing\" | shouty_snake_case }} {{ \"My Thing\" | snake_case }} {{ \"my_thing\" | title_case }} {{ \"my thing\" | upper_camel_case }} {{ \"x.rhai\" | rhai }}";
    let out = render_string_gracefully(&ctx, text, false, &ran, RenderMode::CollectErrors).ok().unwrap();
    assert_eq!(out, "my-cool-thing myThing MyThing MY-THING MY_THING my_thing My Thing MyThing ran x.rhai");
}

#[test]
fn whitespace_control() {
    let ctx = demo_context();
    let text = "{% if true %}\n  yes\n{% endif %}\n";
    let out = render_string_gracefully(&ctx, text, false, &same, RenderMode::CollectErrors).ok().unwrap();
    assert_eq!(out, "  yes\n");
    let out = render_string_gracefully(&ctx, text, true, &same, RenderMode::CollectErrors).ok().unwrap();
    assert_eq!(out, "\n  yes\n");
}

#[test]
fn rename_outcome_by_name() {
    assert!(matches!(rename_outcome("a/b.txt", "a/b.txt".to_string()), MoveOutcome::Stay));
    match rename_outcome("{{x}}/b.txt", "demo/b.txt".to_string()) {
        MoveOutcome::Move { dest } => assert_eq!(dest, "demo/b.txt"),
        MoveOutcome::Stay => panic!("expected a move"),
    }
}

#[test]
fn engine_flags_and_filters() {
    let env = create_liquid_engine(false, same);
    assert!(env.trim_blocks() && env.lstrip_blocks());
    let env = create_liquid_engine(true, same);
    assert!(!env.trim_blocks() && !env.lstrip_blocks());
    let out = env.render_str("{{ 'a b' | snake_case }} {{ '2024-03-07' | date('%d') }} {{ 'x' | rhai }}", ()).unwrap();
    assert_eq!(out, "a_b 07 x");
}

#[test]
fn file_outcome_writes_rendered_text() {
    match file_outcome("{{x}}/a.txt", "demo/a.txt".to_string(), "body".to_string()) {
        FileOutcome::Write { dest, content, remove_source } => {
            assert_eq!(dest, "demo/a.txt");
            assert_eq!(content, "body");
            assert!(remove_source);
        }
        FileOutcome::Failed => panic!("expected a write"),
    }
    match file_outcome("a.txt", "a.txt".to_string(), "".to_string()) {
        FileOutcome::Write { remove_source, .. } => assert!(!remove_source),
        FileOutcome::Failed => panic!("expected a write"),
    }
}

#[test]
fn json_quote_escapes() {
    let mut ctx = VariableContext::new();
    ctx.set_list("l", vec![scaffold_core::script::ScriptValue::Str("a\\\"\n\t\u{1}é".to_string())]).unwrap();
    assert_eq!(ctx.to_json(), "{\"l\":[\"a\\\\\\\"\\n\\t\\u0001é\"]}");
}
