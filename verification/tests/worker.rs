use amanuensis::asr::fetch::DownloadProgress;
use amanuensis::asr::model::{ModelKind, ModelPaths};
use amanuensis::asr::rewrite::RewriteResult;
use amanuensis::asr::worker::{
    model_for_mode, Action, Command, Event, Fetch, Input, LoadNote, ModelSelection, Stage, Worker,
};
use amanuensis::asr::Mode;

fn whole() -> ModelPaths {
    ModelPaths::Moonshine {
        preprocessor: "p".to_owned(),
        encoder: "e".to_owned(),
        uncached_decoder: "u".to_owned(),
        cached_decoder: "c".to_owned(),
        tokens: "t".to_owned(),
    }
}

fn streaming() -> ModelPaths {
    ModelPaths::Nemotron {
        encoder: "e".to_owned(),
        decoder: "d".to_owned(),
        joiner: "j".to_owned(),
        tokens: "t".to_owned(),
    }
}

fn serving() -> Worker {
    let (mut worker, actions) = Worker::new(ModelSelection::default());
    assert_eq!(
        format!("{actions:?}"),
        format!(
            "[Send(LoadingProgress(\"checking {} model\")), Fetch(Moonshine)]",
            ModelKind::Moonshine.display_name()
        )
    );
    let loading = worker.step(Input::Fetched(Fetch::Found(whole())));
    let [Action::Send(Event::LoadingProgress(note)), Action::Load(_)] = &loading[..] else {
        panic!("not loading: {loading:?}");
    };
    assert_eq!(note, "loading recognizer");
    let served = worker.step(Input::Loaded(Some(whole())));
    assert_eq!(
        format!("{served:?}"),
        "[Install, ReportBackend { mode: Record, kind: Moonshine }, Send(Ready)]"
    );
    worker
}

fn fed(worker: &mut Worker, samples: u64, partial: Option<&str>) -> Vec<Action> {
    let actions = worker.step(Input::Command(Command::Chunk { samples }));
    assert!(matches!(actions[..], [Action::Feed { .. }]));
    worker.step(Input::Fed { samples, nanos: 1000, partial: partial.map(|p| p.to_owned()) })
}

#[test]
fn a_recording_is_fed_closed_and_rewritten() {
    let mut worker = serving();
    let actions = worker.step(Input::Command(Command::Start { epoch: 3 }));
    assert!(matches!(actions[..], [Action::StartSession]));
    assert!(fed(&mut worker, 480, None).is_empty());
    assert!(fed(&mut worker, 480, Some("part")).is_empty());
    let actions = worker.step(Input::Command(Command::Stop { epoch: 3 }));
    assert!(matches!(actions[..], [Action::Finalize]));
    let actions = worker.step(Input::Finalized("raw text".to_owned()));
    assert_eq!(format!("{actions:?}"), "[Rewrite { text: \"raw text\", threads: 2 }]");
    let result = RewriteResult {
        text: "Raw text.".to_owned(),
        wall_ms: 5,
        in_tokens: 2,
        out_tokens: 3,
        ok: true,
    };
    let actions = worker.step(Input::Rewritten { result: Some(result), wall_ms: 7 });
    assert_eq!(
        format!("{actions:?}"),
        "[ReportRewrite { wall_ms: 7, in_tokens: 2, out_tokens: 3 }, \
         ReportSession { mode: Record, samples: 960, feeds: 2, decode_nanos: 2000 }, \
         Send(Committed { text: \"Raw text.\", samples: 960, epoch: 3, rewritten: true })]"
    );
}

#[test]
fn a_failed_rewrite_keeps_the_transcript() {
    let broken = RewriteResult {
        text: "x".to_owned(),
        wall_ms: 5,
        in_tokens: 2,
        out_tokens: 3,
        ok: false,
    };
    for result in [None, Some(broken)] {
        let mut worker = serving();
        worker.step(Input::Command(Command::Start { epoch: 1 }));
        worker.step(Input::Command(Command::Stop { epoch: 1 }));
        worker.step(Input::Finalized("raw".to_owned()));
        let actions = worker.step(Input::Rewritten { result, wall_ms: 7 });
        assert_eq!(
            format!("{actions:?}"),
            "[ReportSession { mode: Record, samples: 0, feeds: 0, decode_nanos: 0 }, \
             Send(Committed { text: \"raw\", samples: 0, epoch: 1, rewritten: false })]"
        );
    }
}

#[test]
fn blank_transcripts_are_not_rewritten() {
    let mut worker = serving();
    worker.step(Input::Command(Command::Start { epoch: 1 }));
    worker.step(Input::Command(Command::Stop { epoch: 1 }));
    let actions = worker.step(Input::Finalized(" \n".to_owned()));
    assert!(matches!(
        actions[..],
        [Action::ReportSession { .. }, Action::Send(Event::Committed { rewritten: false, .. })]
    ));
}

#[test]
fn a_stop_without_a_session_is_answered() {
    let mut worker = serving();
    let actions = worker.step(Input::Command(Command::Stop { epoch: 9 }));
    assert_eq!(
        format!("{actions:?}"),
        "[Send(Committed { text: \"\", samples: 0, epoch: 9, rewritten: false })]"
    );
    assert!(matches!(worker.stage, Stage::Serving));
}

#[test]
fn chunks_outside_a_session_are_dropped() {
    let mut worker = serving();
    assert!(worker.step(Input::Command(Command::Chunk { samples: 480 })).is_empty());
    assert_eq!(worker.session_samples, 0);
}

#[test]
fn live_partials_are_sent_when_they_change() {
    let mut worker = serving();
    worker.step(Input::Command(Command::SwitchMode(Mode::Live)));
    worker.step(Input::Fetched(Fetch::Found(streaming())));
    worker.step(Input::Loaded(Some(streaming())));
    assert_eq!(worker.mode, Mode::Live);
    worker.step(Input::Command(Command::Start { epoch: 1 }));
    let sent = fed(&mut worker, 480, Some("he"));
    assert_eq!(format!("{sent:?}"), "[Send(Partial(\"he\"))]");
    assert!(fed(&mut worker, 480, Some("he")).is_empty());
    assert_eq!(fed(&mut worker, 480, Some("hello")).len(), 1);
}

#[test]
fn switching_modes_closes_the_session_and_swaps_the_engine() {
    let mut worker = serving();
    worker.step(Input::Command(Command::Start { epoch: 4 }));
    let actions = worker.step(Input::Command(Command::SwitchMode(Mode::Live)));
    assert!(matches!(actions[..], [Action::Finalize]));
    let actions = worker.step(Input::Finalized("so far".to_owned()));
    assert_eq!(
        format!("{actions:?}"),
        "[Send(Committed { text: \"so far\", samples: 0, epoch: 4, rewritten: false }), \
         Send(LoadingProgress(\"checking Nemotron Streaming model\")), Fetch(Nemotron)]"
    );
    let actions = worker.step(Input::Fetched(Fetch::Found(streaming())));
    let [Action::Send(Event::LoadingProgress(note)), Action::Unload, Action::Load(_)] = &actions[..]
    else {
        panic!("not loading: {actions:?}");
    };
    assert_eq!(note, "loading Nemotron recognizer");
    let actions = worker.step(Input::Loaded(Some(streaming())));
    assert_eq!(format!("{actions:?}"), "[Install, Send(ModelReady(Live))]");
}

#[test]
fn a_resident_engine_is_not_loaded_again() {
    let mut worker = serving();
    let actions = worker.step(Input::Command(Command::SwitchMode(Mode::Record)));
    assert_eq!(format!("{actions:?}"), "[Send(ModelReady(Record))]");
}

#[test]
fn a_download_is_reported_while_it_runs() {
    let progress = || DownloadProgress {
        file: "encoder.int8.onnx".to_owned(),
        done: 50_000_000,
        total: 200_000_000,
        measured: None,
    };
    let selection =
        ModelSelection { record_model: ModelKind::Nemotron, ..ModelSelection::default() };
    let (mut worker, _) = Worker::new(selection);
    let actions = worker.step(Input::Progress(progress()));
    let [Action::Send(Event::LoadingProgress(text))] = &actions[..] else {
        panic!("not reported: {actions:?}");
    };
    assert_eq!(
        *text,
        format!(
            "Downloading {} \u{2014} 25% \u{b7} 50/200 MB (encoder.int8.onnx)",
            ModelKind::Nemotron.display_name()
        )
    );
    assert!(matches!(worker.stage, Stage::Fetching { kind: ModelKind::Nemotron, .. }));
    worker.step(Input::Fetched(Fetch::Found(streaming())));
    assert!(worker.step(Input::Progress(progress())).is_empty());
}

#[test]
fn startup_ends_without_a_model() {
    let (mut worker, _) = Worker::new(ModelSelection::default());
    let actions = worker.step(Input::Fetched(Fetch::Failed));
    assert_eq!(format!("{actions:?}"), "[Send(LoadingProgress(\"model fetch failed\")), Exit]");
    assert!(matches!(worker.stage, Stage::Stopped));
    assert!(worker.step(Input::Command(Command::Start { epoch: 1 })).is_empty());
    let (mut worker, _) = Worker::new(ModelSelection::default());
    let actions = worker.step(Input::Fetched(Fetch::Cancelled));
    assert_eq!(format!("{actions:?}"), "[Exit]");
    let (mut worker, _) = Worker::new(ModelSelection::default());
    worker.step(Input::Fetched(Fetch::Found(whole())));
    let actions = worker.step(Input::Loaded(None));
    assert_eq!(format!("{actions:?}"), "[Send(LoadingProgress(\"load failed\")), Exit]");
}

#[test]
fn a_debug_reload_unloads_first() {
    let mut worker = serving();
    let actions = worker.step(Input::Command(Command::ReloadForDebug));
    assert!(matches!(actions[..], [Action::Unload, Action::Load(_)]));
    let actions = worker.step(Input::Loaded(Some(whole())));
    assert_eq!(format!("{actions:?}"), "[Install, Send(Ready)]");
}

#[test]
fn shutdown_ends_the_worker() {
    let mut worker = serving();
    assert!(matches!(worker.step(Input::Command(Command::Shutdown))[..], [Action::Exit]));
    let mut worker = serving();
    assert!(matches!(worker.step(Input::Disconnected)[..], [Action::Exit]));
}

#[test]
fn modes_pick_their_engine() {
    assert_eq!(
        model_for_mode(ModelKind::Moonshine, ModelKind::Nemotron, Mode::Record),
        ModelKind::Moonshine
    );
    assert_eq!(
        model_for_mode(ModelKind::Moonshine, ModelKind::Nemotron, Mode::Live),
        ModelKind::Nemotron
    );
}

#[test]
fn loading_notes_are_worded() {
    assert_eq!(
        LoadNote::CheckingModel(ModelKind::Nemotron).text(),
        format!("checking {} model", ModelKind::Nemotron.display_name())
    );
    assert_eq!(LoadNote::FetchFailed.text(), "model fetch failed");
    assert_eq!(LoadNote::LoadingRecognizer.text(), "loading recognizer");
    assert_eq!(LoadNote::LoadingEngine(ModelKind::Moonshine).text(), "loading Moonshine recognizer");
    assert_eq!(LoadNote::LoadFailed.text(), "load failed");
}
