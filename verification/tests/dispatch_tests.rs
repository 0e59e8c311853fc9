use scaffold::{
    generate, Action, Component, Context, Error, Event, Generation, PackageLookup, RenderOutcome,
    Template, Timestamp, Value,
};

const NEW_YEAR_2024: Timestamp = Timestamp { secs: 1_704_067_200, nanos: 0 };

fn generated(message: &str) -> RenderOutcome {
    RenderOutcome::Generated { message: Some(message.to_string()) }
}

fn text(value: &str) -> Value {
    Value::Text(value.to_string())
}

fn expect_render(generation: &Generation, expected: Template) -> &Context {
    match generation.pending() {
        Action::Render { template, context } => {
            assert_eq!(template, expected);
            context
        }
        other => panic!("expected a render of {:?}, got {:?}", expected, other),
    }
}

fn expect_abort(generation: &Generation) -> &Error {
    match generation.pending() {
        Action::Abort { error } => error,
        other => panic!("expected an abort, got {:?}", other),
    }
}

fn model(name: &str) -> Component {
    Component::Model { name: name.to_string(), fields: Vec::new() }
}

fn model_ready(name: &str, pkg_name: &str, ts: Timestamp) -> Generation {
    generate(model(name), None)
        .step(Event::Package(PackageLookup::Found { name: pkg_name.to_string() }))
        .step(Event::Clock(ts))
}

#[test]
fn scenario_model_post() {
    let generation = generate(model("post"), None);
    assert!(matches!(generation.pending(), Action::ResolvePackage { .. }));
    let generation =
        generation.step(Event::Package(PackageLookup::Found { name: "blog".to_string() }));
    assert!(matches!(generation.pending(), Action::ReadClock));
    let generation = generation.step(Event::Clock(NEW_YEAR_2024));

    let context = expect_render(&generation, Template::Model);
    assert_eq!(context.len(), 3);
    assert_eq!(context.get("name"), Some(&text("post")));
    assert_eq!(context.get("pkg_name"), Some(&text("blog")));
    assert_eq!(context.get("ts"), Some(&Value::Time(NEW_YEAR_2024)));

    let generation = generation.step(Event::Rendered(generated("model added")));
    let context = expect_render(&generation, Template::ModelTest);
    assert_eq!(context.len(), 3);
    assert_eq!(context.get("name"), Some(&text("post")));
    assert_eq!(context.get("pkg_name"), Some(&text("blog")));
    assert_eq!(context.get("ts"), Some(&Value::Time(NEW_YEAR_2024)));

    let generation = generation.step(Event::Rendered(generated("test added")));
    match generation.pending() {
        Action::Finish { report } => {
            assert_eq!(report, Some("\n---\n* model added\n* test added\n---\n"));
        }
        other => panic!("expected the end, got {:?}", other),
    }
    assert_eq!(
        generation.outcomes(),
        &[generated("model added"), generated("test added")]
    );
}

#[test]
fn scenario_controller_users() {
    let generation = generate(Component::Controller { name: "users".to_string() }, None);
    let context = expect_render(&generation, Template::Controller);
    assert_eq!(context.len(), 1);
    assert_eq!(context.get("name"), Some(&text("users")));
    assert_eq!(context.get("ts"), None);
    assert_eq!(context.get("pkg_name"), None);

    let generation = generation.step(Event::Rendered(generated("controller added")));
    let context = expect_render(&generation, Template::RequestTest);
    assert_eq!(context.len(), 1);
    assert_eq!(context.get("name"), Some(&text("users")));

    let generation = generation.step(Event::Rendered(RenderOutcome::Skipped));
    assert!(matches!(generation.pending(), Action::Finish { report: None }));
    assert_eq!(
        generation.outcomes(),
        &[generated("controller added"), RenderOutcome::Skipped]
    );
}

#[test]
fn scenario_metadata_unavailable() {
    let generation = generate(model("post"), None).step(Event::Package(
        PackageLookup::Unavailable { detail: "could not parse the manifest".to_string() },
    ));
    assert_eq!(
        expect_abort(&generation),
        &Error::MetadataUnavailable { detail: "could not parse the manifest".to_string() }
    );
    assert!(generation.outcomes().is_empty());
}

#[test]
fn model_without_root_package_is_given_up() {
    let generation = generate(model("post"), None).step(Event::Package(PackageLookup::NoRootPackage));
    let error = expect_abort(&generation);
    assert_eq!(
        error,
        &Error::MetadataUnavailable {
            detail: "cannot find root package in Cargo.toml".to_string()
        }
    );
    assert_eq!(error.message(), "cannot find root package in Cargo.toml");
    assert!(generation.outcomes().is_empty());
}

#[test]
fn nothing_is_rendered_after_a_metadata_failure() {
    let generation = generate(model("post"), None)
        .step(Event::Package(PackageLookup::NoRootPackage))
        .step(Event::Clock(NEW_YEAR_2024))
        .step(Event::Package(PackageLookup::Found { name: "blog".to_string() }))
        .step(Event::Rendered(generated("late")));
    assert!(matches!(generation.pending(), Action::Abort { .. }));
    assert!(generation.outcomes().is_empty());
}

#[test]
fn scenario_mailer_second_render_fails() {
    let generation = generate(Component::Mailer { name: "welcome".to_string() }, None);
    let context = expect_render(&generation, Template::Mailer);
    assert_eq!(context.get("name"), Some(&text("welcome")));
    assert_eq!(context.len(), 1);
    let generation = generation.step(Event::Rendered(generated("mailer added")));
    expect_render(&generation, Template::MailerSub);
    let generation = generation.step(Event::Rendered(RenderOutcome::Failed {
        detail: "template syntax error".to_string(),
    }));
    assert_eq!(
        expect_abort(&generation),
        &Error::RenderFailure {
            template: Template::MailerSub,
            detail: "template syntax error".to_string()
        }
    );
    assert_eq!(
        generation.outcomes(),
        &[
            generated("mailer added"),
            RenderOutcome::Failed { detail: "template syntax error".to_string() }
        ]
    );
    // The third and the fourth template are never asked for.
    let generation = generation
        .step(Event::Rendered(generated("text added")))
        .step(Event::Rendered(generated("html added")));
    assert!(matches!(generation.pending(), Action::Abort { .. }));
    assert_eq!(generation.outcomes().len(), 2);
}

#[test]
fn mailer_renders_its_four_templates() {
    let mut generation = generate(Component::Mailer { name: "welcome".to_string() }, None);
    let order = [
        Template::Mailer,
        Template::MailerSub,
        Template::MailerText,
        Template::MailerHtml,
    ];
    for template in order {
        let context = expect_render(&generation, template);
        assert_eq!(context.get("name"), Some(&text("welcome")));
        generation = generation.step(Event::Rendered(generated("done")));
    }
    assert!(matches!(generation.pending(), Action::Finish { report: None }));
    assert_eq!(generation.outcomes().len(), 4);
}

#[test]
fn a_failure_at_any_position_stops_the_mailer() {
    let order = [
        Template::Mailer,
        Template::MailerSub,
        Template::MailerText,
        Template::MailerHtml,
    ];
    for failing in 0..order.len() {
        let mut generation = generate(Component::Mailer { name: "welcome".to_string() }, None);
        for template in order.iter().take(failing) {
            expect_render(&generation, *template);
            generation = generation.step(Event::Rendered(RenderOutcome::Generated { message: None }));
        }
        expect_render(&generation, order[failing]);
        generation =
            generation.step(Event::Rendered(RenderOutcome::Failed { detail: "boom".to_string() }));
        assert_eq!(
            expect_abort(&generation),
            &Error::RenderFailure { template: order[failing], detail: "boom".to_string() }
        );
        assert_eq!(generation.outcomes().len(), failing + 1);
        generation = generation.step(Event::Rendered(generated("late")));
        assert!(matches!(generation.pending(), Action::Abort { .. }));
        assert_eq!(generation.outcomes().len(), failing + 1);
    }
}

#[test]
fn task_renders_one_template() {
    let generation = generate(Component::Task { name: "cleanup".to_string() }, None);
    let context = expect_render(&generation, Template::Task);
    assert_eq!(context.len(), 1);
    assert_eq!(context.get("name"), Some(&text("cleanup")));
    let generation = generation.step(Event::Rendered(generated("task added")));
    assert!(matches!(generation.pending(), Action::Finish { report: None }));
    assert_eq!(generation.outcomes(), &[generated("task added")]);
}

#[test]
fn worker_renders_one_template() {
    let generation = generate(Component::Worker { name: "digest".to_string() }, None);
    let context = expect_render(&generation, Template::Worker);
    assert_eq!(context.len(), 1);
    assert_eq!(context.get("name"), Some(&text("digest")));
    let generation = generation.step(Event::Rendered(RenderOutcome::Generated { message: None }));
    assert!(matches!(generation.pending(), Action::Finish { report: None }));
}

#[test]
fn model_renders_share_one_timestamp() {
    let ts = Timestamp { secs: 1_700_000_000, nanos: 123_456_789 };
    let generation = model_ready("post", "blog", ts);
    let first = expect_render(&generation, Template::Model).get("ts") == Some(&Value::Time(ts));
    assert!(first);
    // A later reading of the clock changes nothing.
    let generation = generation.step(Event::Clock(Timestamp { secs: 1_700_000_001, nanos: 0 }));
    let generation = generation.step(Event::Rendered(RenderOutcome::Generated { message: None }));
    let generation = generation.step(Event::Clock(Timestamp { secs: 1_700_000_002, nanos: 0 }));
    let context = expect_render(&generation, Template::ModelTest);
    assert_eq!(context.get("ts"), Some(&Value::Time(ts)));
}

#[test]
fn model_report_leaves_out_silent_outcomes() {
    let generation = model_ready("post", "blog", NEW_YEAR_2024)
        .step(Event::Rendered(RenderOutcome::Skipped))
        .step(Event::Rendered(generated("test added")));
    match generation.pending() {
        Action::Finish { report } => assert_eq!(report, Some("\n---\n* test added\n---\n")),
        other => panic!("expected the end, got {:?}", other),
    }
}

#[test]
fn model_report_may_be_empty() {
    let generation = model_ready("post", "blog", NEW_YEAR_2024)
        .step(Event::Rendered(RenderOutcome::Generated { message: None }))
        .step(Event::Rendered(RenderOutcome::Skipped));
    match generation.pending() {
        Action::Finish { report } => assert_eq!(report, Some("\n---\n---\n")),
        other => panic!("expected the end, got {:?}", other),
    }
}

#[test]
fn model_first_render_failure_leaves_one_outcome() {
    let generation = model_ready("post", "blog", NEW_YEAR_2024)
        .step(Event::Rendered(RenderOutcome::Failed { detail: "denied".to_string() }));
    let error = expect_abort(&generation);
    assert_eq!(
        error,
        &Error::RenderFailure { template: Template::Model, detail: "denied".to_string() }
    );
    assert_eq!(error.message(), "denied");
    assert_eq!(
        generation.outcomes(),
        &[RenderOutcome::Failed { detail: "denied".to_string() }]
    );
}

#[test]
fn model_fields_reach_no_context() {
    let component = Component::Model {
        name: "post".to_string(),
        fields: vec![
            ("title".to_string(), "string".to_string()),
            ("hits".to_string(), "integer".to_string()),
        ],
    };
    let generation = generate(component, None)
        .step(Event::Package(PackageLookup::Found { name: "blog".to_string() }))
        .step(Event::Clock(NEW_YEAR_2024));
    let context = expect_render(&generation, Template::Model);
    assert_eq!(context.len(), 3);
    assert_eq!(context.get("fields"), None);
    assert_eq!(context.get("title"), None);
    match generation.request() {
        Component::Model { fields, .. } => assert_eq!(fields.len(), 2),
        other => panic!("expected a model, got {:?}", other),
    }
}

#[test]
fn manifest_is_looked_for_from_the_current_directory() {
    let generation = generate(model("post"), None);
    match generation.pending() {
        Action::ResolvePackage { manifest_path, working_dir } => {
            assert_eq!(manifest_path, "./Cargo.toml");
            assert_eq!(working_dir, ".");
        }
        other => panic!("expected a lookup, got {:?}", other),
    }
}

#[test]
fn manifest_is_looked_for_from_the_given_directory() {
    let generation = generate(model("post"), Some("/work/blog".to_string()));
    match generation.pending() {
        Action::ResolvePackage { manifest_path, working_dir } => {
            assert_eq!(manifest_path, "./Cargo.toml");
            assert_eq!(working_dir, "/work/blog");
        }
        other => panic!("expected a lookup, got {:?}", other),
    }
}

#[test]
fn other_kinds_never_ask_for_metadata() {
    let components = vec![
        Component::Controller { name: "a".to_string() },
        Component::Task { name: "b".to_string() },
        Component::Worker { name: "c".to_string() },
        Component::Mailer { name: "d".to_string() },
    ];
    for component in components {
        let generation = generate(component, Some("/nowhere".to_string()));
        assert!(matches!(generation.pending(), Action::Render { .. }));
        // An answer that nobody asked for changes nothing.
        let generation = generation.step(Event::Package(PackageLookup::NoRootPackage));
        assert!(matches!(generation.pending(), Action::Render { .. }));
        assert!(generation.outcomes().is_empty());
    }
}

#[test]
fn an_event_that_answers_nothing_changes_nothing() {
    let generation = generate(model("post"), None);
    let generation = generation.step(Event::Clock(NEW_YEAR_2024));
    assert!(matches!(generation.pending(), Action::ResolvePackage { .. }));
    let generation = generation.step(Event::Rendered(generated("early")));
    assert!(matches!(generation.pending(), Action::ResolvePackage { .. }));
    assert!(generation.outcomes().is_empty());

    let generation =
        generation.step(Event::Package(PackageLookup::Found { name: "blog".to_string() }));
    let generation = generation.step(Event::Rendered(generated("early")));
    let generation =
        generation.step(Event::Package(PackageLookup::Found { name: "shop".to_string() }));
    assert!(matches!(generation.pending(), Action::ReadClock));

    let generation = generation.step(Event::Clock(NEW_YEAR_2024));
    let context = expect_render(&generation, Template::Model);
    assert_eq!(context.get("pkg_name"), Some(&text("blog")));
}

#[test]
fn a_finished_generation_stays_finished() {
    let generation = generate(Component::Task { name: "cleanup".to_string() }, None)
        .step(Event::Rendered(generated("task added")))
        .step(Event::Rendered(RenderOutcome::Failed { detail: "late".to_string() }))
        .step(Event::Clock(NEW_YEAR_2024));
    assert!(matches!(generation.pending(), Action::Finish { report: None }));
    assert_eq!(generation.outcomes(), &[generated("task added")]);
}

#[test]
fn read_clock_answers_a_model_with_the_current_time() {
    let generation = generate(model("post"), None)
        .step(Event::Package(PackageLookup::Found { name: "blog".to_string() }))
        .read_clock();
    let context = expect_render(&generation, Template::Model);
    match context.get("ts") {
        Some(Value::Time(ts)) => {
            // Later than 2024-01-01T00:00:00Z, with nanoseconds below a second.
            assert!(ts.secs >= NEW_YEAR_2024.secs);
            assert!(ts.nanos < 1_000_000_000);
        }
        other => panic!("expected an instant, got {:?}", other),
    }
    assert_eq!(context.get("name"), Some(&text("post")));
    assert_eq!(context.get("pkg_name"), Some(&text("blog")));
}

#[test]
fn read_clock_changes_nothing_where_no_clock_is_asked_for() {
    let generation = generate(Component::Task { name: "cleanup".to_string() }, None).read_clock();
    let context = expect_render(&generation, Template::Task);
    assert_eq!(context.len(), 1);
    assert_eq!(context.get("ts"), None);

    let generation = generate(model("post"), None).read_clock();
    assert!(matches!(generation.pending(), Action::ResolvePackage { .. }));
}

#[test]
fn request_is_kept() {
    let generation = generate(Component::Worker { name: "digest".to_string() }, None);
    assert_eq!(generation.request(), &Component::Worker { name: "digest".to_string() });
    let generation = generation.step(Event::Rendered(RenderOutcome::Skipped));
    assert_eq!(generation.request(), &Component::Worker { name: "digest".to_string() });
}
