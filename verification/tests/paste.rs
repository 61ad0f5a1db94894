use amanuensis::paste::{
    clean_transcript, drop_hesitations, next_paste_step, paste_text, strip_fillers, PasteStep,
};

#[test]
fn strips_chained_fillers_entirely() {
    assert_eq!(clean_transcript("um uh ah"), "");
    assert_eq!(clean_transcript("uh so um hello world"), "so hello world");
}

#[test]
fn replacement_rules_and_case_insensitive_fillers() {
    assert_eq!(clean_transcript("mhm sure"), "sure");
    assert_eq!(clean_transcript("mm-hmm ok"), "- ok");
    assert_eq!(clean_transcript("Uh hello"), "hello");
}

#[test]
fn collapses_spaces_before_punct_and_trims() {
    assert_eq!(clean_transcript("well , yes"), "well, yes");
    assert_eq!(clean_transcript("  done.  "), "done.");
    assert_eq!(clean_transcript(""), "");
}

#[test]
fn hesitations_are_dropped_as_whole_words() {
    assert!(!drop_hesitations("say um now").contains("um"));
    assert!(drop_hesitations("the umbrella").contains("umbrella"));
}

#[test]
fn fillers_between_commas_are_stripped() {
    assert_eq!(strip_fillers("it is, uh, fine"), "it is,  , fine");
    assert_eq!(strip_fillers("Hmm, it is uhh fine"), " , it is   fine");
    assert_eq!(strip_fillers("it is, like, fine"), "it is, like, fine");
}

#[test]
fn stripped_texts_have_no_fillers_left() {
    for text in ["um uh ah", "uh, um, eh", "mm-hmm hmm um", "so, uh um well", "plain words"] {
        let stripped = strip_fillers(text);
        assert_eq!(strip_fillers(&stripped), stripped);
        for word in stripped.split([' ', ',']) {
            assert!(!["um", "uh", "ah", "eh", "hmm", "mm-hmm"].contains(&word), "{stripped:?}");
        }
    }
}

#[test]
fn pasting_sets_the_text_before_it_sends_keys() {
    let mut step = PasteStep::OpenClipboard;
    let mut seen = Vec::new();
    while step != PasteStep::Done {
        seen.push(step);
        step = next_paste_step(step, step != PasteStep::RestoreFocus, true);
    }
    assert_eq!(
        seen,
        vec![
            PasteStep::OpenClipboard,
            PasteStep::SetText,
            PasteStep::Settle,
            PasteStep::RestoreFocus,
            PasteStep::SettleFocus,
            PasteStep::OpenKeys,
            PasteStep::PressControl,
            PasteStep::ClickV,
            PasteStep::ReleaseControl,
        ]
    );
    assert_eq!(
        next_paste_step(PasteStep::Settle, true, false),
        PasteStep::OpenKeys
    );
    assert_eq!(
        next_paste_step(PasteStep::SetText, false, true),
        PasteStep::Failed
    );
}

#[test]
fn pasting_counts_characters() {
    assert_eq!(paste_text("naïve", None), Ok(5));
    assert_eq!(
        paste_text("x", Some("no clipboard".to_owned())),
        Err("no clipboard".to_owned())
    );
}
