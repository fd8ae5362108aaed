use internal_bluefox_lib::plugin::pipeline::{
    ENTRY_SYMBOL, LOAD_FAILED, NOT_A_SOURCE, OUT_OF_TURN, REGISTRY_GONE, RESOLVE_FAILED,
};
use internal_bluefox_lib::plugin::{
    load_plugin, Action, Candidate, Event, FailureKind, Phase, PluginSource, Registry,
    ToolOutcome, Toolchain,
};
use libloading::Library;

fn this_image() -> Library {
    Library::from(libloading::os::unix::Library::this())
}

fn tools() -> Toolchain {
    Toolchain::new("/tmp/ws", "/opt/game/assets/pluginlib")
}

fn foo() -> Candidate {
    Candidate::new(PluginSource::new("/plugins/foo.bfps", "foo.bfps"))
}

fn exited_cleanly() -> Event {
    Event::Tool(ToolOutcome::Exited(Some(0), String::from("exit status: 0")))
}

fn rejection(action: Action) -> (FailureKind, String) {
    match action {
        Action::Reject(error) => (error.kind(), String::from(error.message())),
        other => panic!("expected a rejection, got {:?}", other),
    }
}

#[test]
fn entry_symbol_is_get_plugin() {
    assert_eq!(ENTRY_SYMBOL, "get_plugin");
}

#[test]
fn fresh_candidate_is_pending() {
    let candidate = foo();
    assert_eq!(candidate.phase(), Phase::Pending);
    assert_eq!(candidate.name(), "");
    assert_eq!(candidate.source().path, "/plugins/foo.bfps");
    assert_eq!(candidate.source().file_name, "foo.bfps");
    assert!(!candidate.phase().terminal());
}

#[test]
fn candidate_walks_through_every_phase() {
    let toolchain = tools();
    let mut registry = Registry::new();
    let mut candidate = foo();

    let action = load_plugin(&mut candidate, &toolchain, &mut registry, Event::Begin);
    assert_eq!(candidate.phase(), Phase::CompilingToAssembly);
    assert_eq!(candidate.name(), "foo");
    match action {
        Action::Run(invocation) => {
            assert_eq!(invocation.program, "llc");
            assert_eq!(
                invocation.args,
                vec!["-filetype=asm", "-o", "/tmp/ws/foo.s", "/plugins/foo.bfps"]
            );
        }
        other => panic!("expected a run, got {:?}", other),
    }

    let action = load_plugin(&mut candidate, &toolchain, &mut registry, exited_cleanly());
    assert_eq!(candidate.phase(), Phase::CompilingToNative);
    match action {
        Action::Run(invocation) => {
            assert_eq!(invocation.program, "gcc");
            assert_eq!(
                invocation.args,
                vec![
                    "-nostdlib",
                    "-shared",
                    "-L/opt/game/assets/pluginlib",
                    "-lbluefox_lib",
                    "-o",
                    "/tmp/ws/foo.bfpn",
                    "-fPIC",
                    "/tmp/ws/foo.s"
                ]
            );
        }
        other => panic!("expected a run, got {:?}", other),
    }

    let action = load_plugin(&mut candidate, &toolchain, &mut registry, exited_cleanly());
    assert_eq!(candidate.phase(), Phase::Loading);
    assert!(matches!(action, Action::Load(path) if path == "/tmp/ws/foo.bfpn"));
    assert_eq!(registry.len(), 0);

    let action =
        load_plugin(&mut candidate, &toolchain, &mut registry, Event::Loaded(this_image()));
    assert_eq!(candidate.phase(), Phase::ResolvingSymbol);
    assert!(matches!(action, Action::Resolve(0)));
    assert_eq!(registry.len(), 1);

    let action = load_plugin(
        &mut candidate,
        &toolchain,
        &mut registry,
        Event::Resolved(String::from("Foo Plugin")),
    );
    assert_eq!(candidate.phase(), Phase::Done);
    assert!(candidate.phase().terminal());
    assert!(matches!(action, Action::Accept(plugin) if plugin.name() == "Foo Plugin"));
    assert_eq!(registry.len(), 1);
}

#[test]
fn accepted_name_ends_at_the_first_nul() {
    let toolchain = tools();
    let mut registry = Registry::new();
    let mut candidate = foo();
    load_plugin(&mut candidate, &toolchain, &mut registry, Event::Begin);
    load_plugin(&mut candidate, &toolchain, &mut registry, exited_cleanly());
    load_plugin(&mut candidate, &toolchain, &mut registry, exited_cleanly());
    load_plugin(&mut candidate, &toolchain, &mut registry, Event::Loaded(this_image()));
    let action = load_plugin(
        &mut candidate,
        &toolchain,
        &mut registry,
        Event::Resolved(String::from("Foo Plugin\0left over")),
    );
    assert!(matches!(action, Action::Accept(plugin) if plugin.name() == "Foo Plugin"));
    assert_eq!(candidate.phase(), Phase::Done);
}

#[test]
fn other_file_is_rejected_without_outside_work() {
    let toolchain = tools();
    let mut registry = Registry::new();
    let mut candidate = Candidate::new(PluginSource::new("/plugins/notes.txt", "notes.txt"));
    let action = load_plugin(&mut candidate, &toolchain, &mut registry, Event::Begin);
    assert_eq!(
        rejection(action),
        (FailureKind::LoadError, String::from("Reached EOF before plugin was loaded"))
    );
    assert_eq!(NOT_A_SOURCE, "Reached EOF before plugin was loaded");
    assert_eq!(candidate.phase(), Phase::Failed(FailureKind::LoadError));
    assert_eq!(registry.len(), 0);
    let action = load_plugin(&mut candidate, &toolchain, &mut registry, exited_cleanly());
    assert!(matches!(action, Action::Stop));
    let action =
        load_plugin(&mut candidate, &toolchain, &mut registry, Event::Loaded(this_image()));
    assert!(matches!(action, Action::Stop));
    assert_eq!(registry.len(), 0);
}

#[test]
fn suffix_inside_the_file_name_is_removed_from_every_path() {
    let toolchain = tools();
    let mut registry = Registry::new();
    let mut candidate = Candidate::new(PluginSource::new("/plugins/a.bfps.txt", "a.bfps.txt"));
    let action = load_plugin(&mut candidate, &toolchain, &mut registry, Event::Begin);
    assert_eq!(candidate.name(), "a.txt");
    match action {
        Action::Run(invocation) => assert_eq!(
            invocation.args,
            vec!["-filetype=asm", "-o", "/tmp/ws/a.txt.s", "/plugins/a.bfps.txt"]
        ),
        other => panic!("expected a run, got {:?}", other),
    }
    let action = load_plugin(&mut candidate, &toolchain, &mut registry, exited_cleanly());
    match action {
        Action::Run(invocation) => {
            assert_eq!(invocation.args[5], "/tmp/ws/a.txt.bfpn");
            assert_eq!(invocation.args[7], "/tmp/ws/a.txt.s");
        }
        other => panic!("expected a run, got {:?}", other),
    }
    let action = load_plugin(&mut candidate, &toolchain, &mut registry, exited_cleanly());
    assert!(matches!(action, Action::Load(path) if path == "/tmp/ws/a.txt.bfpn"));
}

#[test]
fn candidate_with_wide_characters_behind_the_suffix_is_loaded() {
    let toolchain = tools();
    let mut registry = Registry::new();
    let mut candidate = Candidate::new(PluginSource::new(
        "/plugins/.bfps\u{e9}\u{e9}\u{e9}",
        ".bfps\u{e9}\u{e9}\u{e9}",
    ));
    let action = load_plugin(&mut candidate, &toolchain, &mut registry, Event::Begin);
    assert!(matches!(action, Action::Run(_)));
    assert_eq!(candidate.phase(), Phase::CompilingToAssembly);
    assert_eq!(candidate.name(), "\u{e9}\u{e9}\u{e9}");
    load_plugin(&mut candidate, &toolchain, &mut registry, exited_cleanly());
    load_plugin(&mut candidate, &toolchain, &mut registry, exited_cleanly());
    let action =
        load_plugin(&mut candidate, &toolchain, &mut registry, Event::Loaded(this_image()));
    assert!(matches!(action, Action::Resolve(0)));
    let action = load_plugin(
        &mut candidate,
        &toolchain,
        &mut registry,
        Event::Resolved(String::from("Wide")),
    );
    assert!(matches!(action, Action::Accept(plugin) if plugin.name() == "Wide"));
    assert_eq!(registry.len(), 1);
}

#[test]
fn missing_translator_is_never_a_load_error_for_a_candidate() {
    let toolchain = tools();
    for file_name in ["foo.bfps", "a.bfps.txt", ".bfps\u{e9}\u{e9}\u{e9}"] {
        let mut registry = Registry::new();
        let mut candidate = Candidate::new(PluginSource::new(file_name, file_name));
        load_plugin(&mut candidate, &toolchain, &mut registry, Event::Begin);
        let action = load_plugin(
            &mut candidate,
            &toolchain,
            &mut registry,
            Event::Tool(ToolOutcome::Unavailable(String::from("gone"))),
        );
        assert_eq!(rejection(action), (FailureKind::CompilerNotFound, String::from("llc: gone")));
    }
}

#[test]
fn missing_translator_fails_the_candidate() {
    let toolchain = tools();
    let mut registry = Registry::new();
    let mut candidate = foo();
    load_plugin(&mut candidate, &toolchain, &mut registry, Event::Begin);
    let action = load_plugin(
        &mut candidate,
        &toolchain,
        &mut registry,
        Event::Tool(ToolOutcome::Unavailable(String::from("No such file or directory"))),
    );
    assert_eq!(
        rejection(action),
        (FailureKind::CompilerNotFound, String::from("llc: No such file or directory"))
    );
    assert_eq!(candidate.phase(), Phase::Failed(FailureKind::CompilerNotFound));
    assert_eq!(registry.len(), 0);
    let action =
        load_plugin(&mut candidate, &toolchain, &mut registry, Event::Loaded(this_image()));
    assert!(matches!(action, Action::Stop));
    assert_eq!(registry.len(), 0);
}

#[test]
fn failed_translation_is_a_compile_error_of_the_first_stage() {
    let toolchain = tools();
    let mut registry = Registry::new();
    let mut candidate = foo();
    load_plugin(&mut candidate, &toolchain, &mut registry, Event::Begin);
    let action = load_plugin(
        &mut candidate,
        &toolchain,
        &mut registry,
        Event::Tool(ToolOutcome::Exited(Some(1), String::from("exit status: 1"))),
    );
    assert_eq!(
        rejection(action),
        (
            FailureKind::CompileError,
            String::from("bfps to asm file compilation failed: llc: exit status: 1")
        )
    );
    assert_eq!(candidate.phase(), Phase::Failed(FailureKind::CompileError));
}

#[test]
fn failed_link_is_a_compile_error_of_the_second_stage() {
    let toolchain = tools();
    let mut registry = Registry::new();
    let mut candidate = foo();
    load_plugin(&mut candidate, &toolchain, &mut registry, Event::Begin);
    load_plugin(&mut candidate, &toolchain, &mut registry, exited_cleanly());
    let action = load_plugin(
        &mut candidate,
        &toolchain,
        &mut registry,
        Event::Tool(ToolOutcome::NotStarted(String::from("Permission denied"))),
    );
    assert_eq!(
        rejection(action),
        (
            FailureKind::CompileError,
            String::from("asm file to bfpn compilation failed: gcc: Permission denied")
        )
    );
    assert_eq!(candidate.phase(), Phase::Failed(FailureKind::CompileError));
    assert_eq!(registry.len(), 0);
}

#[test]
fn missing_linker_is_compiler_not_found() {
    let toolchain = tools();
    let mut registry = Registry::new();
    let mut candidate = foo();
    load_plugin(&mut candidate, &toolchain, &mut registry, Event::Begin);
    load_plugin(&mut candidate, &toolchain, &mut registry, exited_cleanly());
    let action = load_plugin(
        &mut candidate,
        &toolchain,
        &mut registry,
        Event::Tool(ToolOutcome::Unavailable(String::from("not found"))),
    );
    assert_eq!(rejection(action), (FailureKind::CompilerNotFound, String::from("gcc: not found")));
}

#[test]
fn failed_load_is_a_load_error() {
    let toolchain = tools();
    let mut registry = Registry::new();
    let mut candidate = foo();
    load_plugin(&mut candidate, &toolchain, &mut registry, Event::Begin);
    load_plugin(&mut candidate, &toolchain, &mut registry, exited_cleanly());
    load_plugin(&mut candidate, &toolchain, &mut registry, exited_cleanly());
    let action = load_plugin(
        &mut candidate,
        &toolchain,
        &mut registry,
        Event::LoadFailed(String::from("dlopen failed")),
    );
    assert_eq!(LOAD_FAILED, "native library could not be loaded: ");
    assert_eq!(
        rejection(action),
        (FailureKind::LoadError, String::from("native library could not be loaded: dlopen failed"))
    );
    assert_eq!(registry.len(), 0);
}

#[test]
fn failed_resolution_is_a_load_error_and_keeps_the_library() {
    let toolchain = tools();
    let mut registry = Registry::new();
    let mut candidate = foo();
    load_plugin(&mut candidate, &toolchain, &mut registry, Event::Begin);
    load_plugin(&mut candidate, &toolchain, &mut registry, exited_cleanly());
    load_plugin(&mut candidate, &toolchain, &mut registry, exited_cleanly());
    load_plugin(&mut candidate, &toolchain, &mut registry, Event::Loaded(this_image()));
    let action = load_plugin(
        &mut candidate,
        &toolchain,
        &mut registry,
        Event::ResolveFailed(String::from("dlsym failed")),
    );
    assert_eq!(RESOLVE_FAILED, "plugin descriptor could not be obtained: ");
    assert_eq!(
        rejection(action),
        (
            FailureKind::LoadError,
            String::from("plugin descriptor could not be obtained: dlsym failed")
        )
    );
    assert_eq!(candidate.phase(), Phase::Failed(FailureKind::LoadError));
    assert_eq!(registry.len(), 1);
}

#[test]
fn nothing_is_loaded_after_teardown() {
    let toolchain = tools();
    let mut registry = Registry::new();
    assert_eq!(registry.teardown().ok(), Some(0));
    let mut candidate = foo();
    let action = load_plugin(&mut candidate, &toolchain, &mut registry, Event::Begin);
    assert!(matches!(action, Action::Run(_)));
    let action = load_plugin(&mut candidate, &toolchain, &mut registry, exited_cleanly());
    assert!(matches!(action, Action::Run(_)));
    let action = load_plugin(&mut candidate, &toolchain, &mut registry, exited_cleanly());
    assert_eq!(
        rejection(action),
        (FailureKind::LoadError, String::from("the library registry has been torn down"))
    );
    assert_eq!(candidate.phase(), Phase::Failed(FailureKind::LoadError));
    assert!(!registry.is_present());
    let action =
        load_plugin(&mut candidate, &toolchain, &mut registry, Event::Loaded(this_image()));
    assert!(matches!(action, Action::Stop));
    assert!(!registry.is_present());
    assert_eq!(registry.len(), 0);
}

#[test]
fn library_that_arrives_after_a_teardown_in_between_is_refused() {
    let toolchain = tools();
    let mut registry = Registry::new();
    let mut candidate = foo();
    load_plugin(&mut candidate, &toolchain, &mut registry, Event::Begin);
    load_plugin(&mut candidate, &toolchain, &mut registry, exited_cleanly());
    let action = load_plugin(&mut candidate, &toolchain, &mut registry, exited_cleanly());
    assert!(matches!(action, Action::Load(_)));
    assert_eq!(registry.teardown().ok(), Some(0));
    let action =
        load_plugin(&mut candidate, &toolchain, &mut registry, Event::Loaded(this_image()));
    assert_eq!(
        rejection(action),
        (FailureKind::LoadError, String::from("the library registry has been torn down"))
    );
    assert_eq!(REGISTRY_GONE, "the library registry has been torn down");
    assert!(!registry.is_present());
    assert_eq!(registry.len(), 0);
}

#[test]
fn event_out_of_turn_fails_the_candidate() {
    let toolchain = tools();
    let mut registry = Registry::new();

    let mut candidate = foo();
    let action = load_plugin(&mut candidate, &toolchain, &mut registry, exited_cleanly());
    assert_eq!(
        rejection(action),
        (FailureKind::LoadError, String::from("event does not answer the pending action"))
    );
    assert_eq!(OUT_OF_TURN, "event does not answer the pending action");

    let mut candidate = foo();
    load_plugin(&mut candidate, &toolchain, &mut registry, Event::Begin);
    let action = load_plugin(&mut candidate, &toolchain, &mut registry, Event::Begin);
    assert_eq!(rejection(action).1, OUT_OF_TURN);

    let mut candidate = foo();
    load_plugin(&mut candidate, &toolchain, &mut registry, Event::Begin);
    let action =
        load_plugin(&mut candidate, &toolchain, &mut registry, Event::Loaded(this_image()));
    assert_eq!(rejection(action).1, OUT_OF_TURN);
    assert_eq!(registry.len(), 0);

    let mut candidate = foo();
    load_plugin(&mut candidate, &toolchain, &mut registry, Event::Begin);
    load_plugin(&mut candidate, &toolchain, &mut registry, exited_cleanly());
    load_plugin(&mut candidate, &toolchain, &mut registry, exited_cleanly());
    let action = load_plugin(
        &mut candidate,
        &toolchain,
        &mut registry,
        Event::Resolved(String::from("Foo Plugin")),
    );
    assert_eq!(rejection(action).1, OUT_OF_TURN);
    assert_eq!(candidate.phase(), Phase::Failed(FailureKind::LoadError));
}

#[test]
fn finished_candidate_does_not_retry() {
    let toolchain = tools();
    let mut registry = Registry::new();
    let mut candidate = foo();
    load_plugin(&mut candidate, &toolchain, &mut registry, Event::Begin);
    load_plugin(&mut candidate, &toolchain, &mut registry, exited_cleanly());
    load_plugin(&mut candidate, &toolchain, &mut registry, exited_cleanly());
    load_plugin(&mut candidate, &toolchain, &mut registry, Event::Loaded(this_image()));
    load_plugin(&mut candidate, &toolchain, &mut registry, Event::Resolved(String::from("Foo")));
    assert_eq!(candidate.phase(), Phase::Done);
    let action = load_plugin(&mut candidate, &toolchain, &mut registry, Event::Begin);
    assert!(matches!(action, Action::Stop));
    let action =
        load_plugin(&mut candidate, &toolchain, &mut registry, Event::Loaded(this_image()));
    assert!(matches!(action, Action::Stop));
    assert_eq!(candidate.phase(), Phase::Done);
    assert_eq!(registry.len(), 1);
}

#[test]
fn same_source_loaded_twice_gives_two_entries() {
    let toolchain = tools();
    let mut registry = Registry::new();
    for round in 0..2usize {
        let mut candidate = foo();
        load_plugin(&mut candidate, &toolchain, &mut registry, Event::Begin);
        load_plugin(&mut candidate, &toolchain, &mut registry, exited_cleanly());
        load_plugin(&mut candidate, &toolchain, &mut registry, exited_cleanly());
        let action =
            load_plugin(&mut candidate, &toolchain, &mut registry, Event::Loaded(this_image()));
        assert!(matches!(action, Action::Resolve(position) if position == round));
        load_plugin(
            &mut candidate,
            &toolchain,
            &mut registry,
            Event::Resolved(String::from("Foo Plugin")),
        );
        assert_eq!(candidate.phase(), Phase::Done);
        assert_eq!(registry.len(), round + 1);
    }
    assert_eq!(registry.len(), 2);
    assert!(!std::ptr::eq(registry.get(0).unwrap(), registry.get(1).unwrap()));
}
