use amanuensis::asr::assets::{
    assets_ready, begin_rewrite_assets, ensure_rewrite_assets, ensure_s1_assets,
    runner_missing_text, s1_llama_cli_path, s1_model_path, s1_paths, zip_name, AssetsAction, AssetsFailure, AssetsFetch, AssetsInput, AssetsOutcome,
    Fetched,
};
use amanuensis::asr::download::{
    ensure_file, part_path, remove_dir_all_retrying, Action, DirRemoval, Download, Failure,
    FileEvent, Input, ModelFetch, ModelStep, Outcome, RemoveStep, Stage, REMOVE_RETRIES,
};
use amanuensis::asr::model::spec_by_id;
use amanuensis::asr::rewrite::{S1_GGUF_BYTES, S1_LLAMA_CLI_URL};

fn asked(expected: Option<u64>) -> Download {
    let (mut download, first) = Download::begin(expected, false);
    match expected {
        Some(_) => assert_eq!(first, [Action::PrepareDir]),
        None => {
            assert_eq!(first, [Action::AskSize]);
            assert_eq!(download.step(Input::Sized(None)), [Action::PrepareDir]);
        }
    }
    assert_eq!(download.step(Input::Prepared(true)), [Action::InspectFile]);
    download
}

fn reading(expected: Option<u64>) -> Download {
    let mut download = asked(expected);
    assert_eq!(download.step(Input::Existing(None)), [Action::ProbePart]);
    assert_eq!(download.step(Input::Partial(None)), [Action::Request]);
    assert_eq!(download.step(Input::Answer(Some(200))), [Action::CreatePart]);
    assert_eq!(download.step(Input::Opened(true)), [Action::Read]);
    download
}

#[test]
fn a_whole_download() {
    let mut download = reading(Some(10));
    assert_eq!(download.step(Input::Bytes { n: 6, cancelled: false }), [Action::Write { n: 6 }]);
    assert_eq!(download.step(Input::Written(true)), [Action::Report(6), Action::Read]);
    assert_eq!(download.step(Input::Bytes { n: 4, cancelled: false }), [Action::Write { n: 4 }]);
    assert_eq!(download.step(Input::Written(true)), [Action::Report(10), Action::Read]);
    assert_eq!(download.step(Input::Bytes { n: 0, cancelled: false }), [Action::Flush]);
    assert_eq!(download.step(Input::Flushed(true)), [Action::Promote]);
    assert_eq!(download.step(Input::Promoted(true)), [Action::Return(Outcome::Ready)]);
    assert!(download.step(Input::Promoted(true)).is_empty());
}

#[test]
fn a_file_of_the_right_size_is_taken() {
    let mut download = asked(Some(10));
    assert_eq!(download.step(Input::Existing(Some(10))), [Action::Return(Outcome::Ready)]);
    let mut download = asked(Some(10));
    assert_eq!(download.step(Input::Existing(Some(9))), [Action::ProbePart]);
    let mut download = asked(None);
    assert_eq!(download.step(Input::Existing(Some(1))), [Action::Return(Outcome::Ready)]);
    let mut download = asked(None);
    assert_eq!(download.step(Input::Existing(Some(0))), [Action::ProbePart]);
}

#[test]
fn a_partial_file_is_continued_if_the_server_agrees() {
    let mut download = asked(Some(10));
    download.step(Input::Existing(None));
    assert_eq!(download.step(Input::Partial(Some(4))), [Action::RequestFrom(4)]);
    assert_eq!(download.step(Input::Answer(Some(206))), [Action::AppendPart]);
    assert_eq!(download.step(Input::Opened(true)), [Action::Read]);
    assert_eq!(download.stage, Stage::Reading { done: 4 });
    for answer in [Some(200), Some(416), None] {
        let mut download = asked(Some(10));
        download.step(Input::Existing(None));
        download.step(Input::Partial(Some(4)));
        assert_eq!(download.step(Input::Answer(answer)), [Action::RemovePart, Action::Request]);
    }
}

#[test]
fn a_file_of_the_wrong_size_is_removed() {
    let mut download = reading(Some(10));
    download.step(Input::Bytes { n: 6, cancelled: false });
    download.step(Input::Written(true));
    download.step(Input::Bytes { n: 0, cancelled: false });
    let failure = Failure::Size { done: 6, expected: 10 };
    assert_eq!(
        download.step(Input::Flushed(true)),
        [Action::RemovePart, Action::Return(Outcome::Failed(failure))]
    );
}

#[test]
fn cancelling_keeps_what_is_there() {
    let (download, actions) = Download::begin(Some(1), true);
    assert_eq!(actions, [Action::Return(Outcome::Cancelled)]);
    assert_eq!(download.stage, Stage::Ended(Outcome::Cancelled));
    let mut download = reading(Some(10));
    assert_eq!(
        download.step(Input::Bytes { n: 6, cancelled: true }),
        [Action::Return(Outcome::Cancelled)]
    );
}

#[test]
fn every_failure_of_a_download() {
    let failed = |failure| [Action::Return(Outcome::Failed(failure))];
    let (mut d, _) = Download::begin(Some(10), false);
    assert_eq!(d.step(Input::Prepared(false)), failed(Failure::CreateDir));
    let mut d = asked(Some(10));
    d.step(Input::Existing(None));
    d.step(Input::Partial(Some(0)));
    assert_eq!(d.step(Input::Answer(None)), failed(Failure::Request));
    let mut d = asked(Some(10));
    d.step(Input::Existing(None));
    d.step(Input::Partial(None));
    d.step(Input::Answer(Some(200)));
    assert_eq!(d.step(Input::Opened(false)), failed(Failure::CreatePart));
    let mut d = asked(Some(10));
    d.step(Input::Existing(None));
    d.step(Input::Partial(Some(3)));
    d.step(Input::Answer(Some(206)));
    assert_eq!(d.step(Input::Opened(false)), failed(Failure::OpenPart));
    assert_eq!(reading(None).step(Input::StreamBroke), failed(Failure::Stream));
    let mut d = reading(None);
    d.step(Input::Bytes { n: 1, cancelled: false });
    assert_eq!(d.step(Input::Written(false)), failed(Failure::Write));
    let mut d = reading(None);
    d.step(Input::Bytes { n: 0, cancelled: false });
    assert_eq!(d.step(Input::Flushed(false)), failed(Failure::Flush));
    let mut d = reading(None);
    d.step(Input::Bytes { n: 0, cancelled: false });
    d.step(Input::Flushed(true));
    assert_eq!(d.step(Input::Promoted(false)), failed(Failure::Promote));
}

#[test]
fn failures_are_worded() {
    let text = |failure: Failure| failure.text("model.onnx", "C:\\m", "denied");
    assert_eq!(text(Failure::CreateDir), "creating C:\\m: denied");
    assert_eq!(text(Failure::Request), "denied");
    assert_eq!(text(Failure::OpenPart), "opening C:\\m: denied");
    assert_eq!(text(Failure::CreatePart), "creating C:\\m: denied");
    assert_eq!(text(Failure::Write), "writing C:\\m: denied");
    assert_eq!(text(Failure::Stream), "streaming model.onnx: denied");
    assert_eq!(text(Failure::Flush), "flushing model.onnx: denied");
    assert_eq!(
        text(Failure::Size { done: 6, expected: 10 }),
        "model.onnx: downloaded 6 bytes, expected 10"
    );
    assert_eq!(text(Failure::Promote), "promoting model.onnx: denied");
}

#[test]
fn partial_files_stand_beside_the_file() {
    assert_eq!(part_path("C:\\m\\encoder.int8.onnx"), "C:\\m\\encoder.int8.onnx.part");
}

#[test]
fn the_files_of_a_model_are_fetched_in_turn() {
    let (mut fetch, first) = ModelFetch::begin(vec![Some(5), None], false);
    assert!(matches!(first, ModelStep::File { index: 0, expected: Some(5) }));
    assert_eq!(fetch.aggregate.total, 5);
    let step = fetch.next(FileEvent::Ready { length: 5, cancelled: false });
    assert!(matches!(step, ModelStep::File { index: 1, expected: None }));
    assert_eq!(fetch.aggregate.completed, 5);
    let step = fetch.next(FileEvent::Ready { length: 7, cancelled: false });
    assert!(matches!(step, ModelStep::Done));
    assert_eq!(fetch.aggregate.completed, 12);
    let (mut fetch, _) = ModelFetch::begin(vec![Some(5), None], false);
    assert!(matches!(fetch.next(FileEvent::Failed), ModelStep::Failed));
    let (mut fetch, _) = ModelFetch::begin(vec![Some(5), None], false);
    assert!(matches!(fetch.next(FileEvent::Cancelled), ModelStep::Cancelled));
    let (_, first) = ModelFetch::begin(vec![Some(5)], true);
    assert!(matches!(first, ModelStep::Cancelled));
}

#[test]
fn a_file_of_a_model_has_its_place_and_address() {
    let spec = spec_by_id("nemotron").unwrap();
    let (url, path, download, actions) =
        ensure_file(spec, "C:\\models", "tokens.txt", Some(3), false);
    assert!(url.starts_with("https://huggingface.co/csukuangfj2/"));
    assert!(url.ends_with("/resolve/main/tokens.txt"));
    assert_eq!(path, "C:\\models\\nemotron\\tokens.txt");
    assert_eq!(download.expected, Some(3));
    assert_eq!(actions, [Action::PrepareDir]);
}

#[test]
fn directories_are_removed_with_retries() {
    assert!(matches!(
        remove_dir_all_retrying(0, DirRemoval::Removed, "C:\\m", ""),
        RemoveStep::Done
    ));
    assert!(matches!(
        remove_dir_all_retrying(0, DirRemoval::Missing, "C:\\m", ""),
        RemoveStep::Done
    ));
    assert!(matches!(
        remove_dir_all_retrying(0, DirRemoval::Failed, "C:\\m", "in use"),
        RemoveStep::Retry
    ));
    let RemoveStep::Failed(text) =
        remove_dir_all_retrying(REMOVE_RETRIES, DirRemoval::Failed, "C:\\m", "in use")
    else {
        panic!("the last attempt must fail");
    };
    assert!(text.contains("C:\\m") && text.contains("in use"));
}

fn looking() -> AssetsFetch {
    let (mut fetch, first) = AssetsFetch::begin(false);
    assert_eq!(first, [AssetsAction::MakeRoot]);
    assert_eq!(fetch.step(AssetsInput::RootMade(true)), [AssetsAction::AskArchiveSize]);
    assert_eq!(fetch.step(AssetsInput::ArchiveSize(Some(100))), [AssetsAction::InspectModel]);
    assert_eq!(fetch.aggregate.total, S1_GGUF_BYTES + 100);
    assert_eq!(
        fetch.step(AssetsInput::ModelLength(Some(S1_GGUF_BYTES))),
        [AssetsAction::LookForRunner]
    );
    fetch
}

#[test]
fn present_assets_are_not_fetched() {
    let mut fetch = looking();
    let actions = fetch.step(AssetsInput::Runner { present: true, cancelled: true });
    assert_eq!(actions, [AssetsAction::Return(AssetsOutcome::Ready)]);
    assert_eq!(fetch.aggregate.completed, S1_GGUF_BYTES + 100);
}

#[test]
fn a_truncated_model_is_fetched_again() {
    let (mut fetch, _) = AssetsFetch::begin(false);
    fetch.step(AssetsInput::RootMade(true));
    fetch.step(AssetsInput::ArchiveSize(None));
    let actions = fetch.step(AssetsInput::ModelLength(Some(S1_GGUF_BYTES - 1)));
    assert_eq!(actions, [AssetsAction::FetchModel]);
    let actions = fetch.step(AssetsInput::Fetched(Fetched::Ready));
    assert_eq!(actions, [AssetsAction::LookForRunner]);
}

#[test]
fn the_runner_comes_out_of_the_archive() {
    let mut fetch = looking();
    let actions = fetch.step(AssetsInput::Runner { present: false, cancelled: false });
    assert_eq!(actions, [AssetsAction::FetchArchive { expected: Some(100) }]);
    let actions = fetch.step(AssetsInput::Fetched(Fetched::Ready));
    assert_eq!(actions, [AssetsAction::MeasureArchive]);
    assert_eq!(fetch.step(AssetsInput::ArchiveLength(100)), [AssetsAction::Expand]);
    let actions = fetch.step(AssetsInput::Expanded(true));
    assert_eq!(actions, [AssetsAction::RemoveArchive, AssetsAction::LookForRunner]);
    let actions = fetch.step(AssetsInput::Runner { present: true, cancelled: false });
    assert_eq!(actions, [AssetsAction::Return(AssetsOutcome::Ready)]);
}

#[test]
fn every_failure_of_the_assets() {
    let failed = |failure| [AssetsAction::Return(AssetsOutcome::Failed(failure))];
    let (mut f, _) = AssetsFetch::begin(false);
    assert_eq!(f.step(AssetsInput::RootMade(false)), failed(AssetsFailure::CreateDir));
    let (mut f, _) = AssetsFetch::begin(false);
    f.step(AssetsInput::RootMade(true));
    f.step(AssetsInput::ArchiveSize(None));
    f.step(AssetsInput::ModelLength(None));
    assert_eq!(f.step(AssetsInput::Fetched(Fetched::Failed)), failed(AssetsFailure::Model));
    let mut f = looking();
    f.step(AssetsInput::Runner { present: false, cancelled: false });
    assert_eq!(f.step(AssetsInput::Fetched(Fetched::Failed)), failed(AssetsFailure::Archive));
    let mut f = looking();
    f.step(AssetsInput::Runner { present: false, cancelled: false });
    f.step(AssetsInput::Fetched(Fetched::Ready));
    f.step(AssetsInput::ArchiveLength(100));
    assert_eq!(f.step(AssetsInput::Expanded(false)), failed(AssetsFailure::Expand));
    let mut f = looking();
    f.step(AssetsInput::Runner { present: false, cancelled: false });
    f.step(AssetsInput::Fetched(Fetched::Ready));
    f.step(AssetsInput::ArchiveLength(100));
    f.step(AssetsInput::Expanded(true));
    assert_eq!(
        f.step(AssetsInput::Runner { present: false, cancelled: false }),
        failed(AssetsFailure::RunnerMissing)
    );
    let mut f = looking();
    assert_eq!(
        f.step(AssetsInput::Runner { present: false, cancelled: true }),
        [AssetsAction::Return(AssetsOutcome::Cancelled)]
    );
    let (_, actions) = AssetsFetch::begin(true);
    assert_eq!(actions, [AssetsAction::Return(AssetsOutcome::Cancelled)]);
}

#[test]
fn both_assets_are_needed() {
    assert_eq!(assets_ready(true, false), (1, 2));
    assert_eq!(assets_ready(true, true), (2, 2));
    let shown = |actions| format!("{actions:?}");
    let report = |ready: u64| {
        format!("Report {{ label: \"s1-mini\", ready: {ready}, total: 2 }}")
    };
    assert_eq!(shown(begin_rewrite_assets(false, false)), format!("[{}, Fetch]", report(0)));
    assert_eq!(shown(begin_rewrite_assets(false, true)), format!("[{}, Fetch]", report(1)));
    for (fetched, model, runner, ready, can_run) in [
        (true, true, true, 2, true),
        (true, true, false, 1, false),
        (false, true, true, 2, false),
    ] {
        assert_eq!(
            shown(ensure_rewrite_assets(Ok(fetched), model, runner)),
            format!("[{}, Return(Ok({can_run}))]", report(ready))
        );
    }
    assert_eq!(
        shown(ensure_rewrite_assets(Err("no disk".to_owned()), true, true)),
        "[Return(Err(\"no disk\"))]"
    );
}

#[test]
fn failed_assets_are_worded() {
    let zip = "a.zip";
    assert_eq!(ensure_s1_assets(AssetsOutcome::Ready, "x", zip), Ok(true));
    assert_eq!(ensure_s1_assets(AssetsOutcome::Cancelled, "x", zip), Ok(false));
    for (failure, text) in [
        (AssetsFailure::CreateDir, "creating models dir: denied"),
        (AssetsFailure::Model, "denied"),
        (AssetsFailure::Archive, "denied"),
        (AssetsFailure::Expand, "denied"),
        (AssetsFailure::RunnerMissing, "llama-cli.exe missing after extracting a.zip"),
    ] {
        assert_eq!(
            ensure_s1_assets(AssetsOutcome::Failed(failure), "denied", zip),
            Err(text.to_owned())
        );
    }
}

#[test]
fn assets_have_their_places() {
    assert_eq!(zip_name(S1_LLAMA_CLI_URL), "llama-b10675-bin-win-cpu-arm64.zip");
    assert_eq!(zip_name("https://host/"), "llama-cli.zip");
    assert!(runner_missing_text("a.zip").contains("a.zip"));
    assert_eq!(
        s1_model_path(Some("C:\\m"), true),
        Some("C:\\m\\s1-mini-q4_k_m.gguf".to_owned())
    );
    assert_eq!(s1_model_path(Some("C:\\m"), false), None);
    assert_eq!(s1_llama_cli_path(None, true), None);
    assert_eq!(
        s1_paths(Some("C:\\m"), true, true),
        Some(("C:\\m\\llama-cli.exe".to_owned(), "C:\\m\\s1-mini-q4_k_m.gguf".to_owned()))
    );
    assert_eq!(s1_paths(Some("C:\\m"), true, false), None);
}
