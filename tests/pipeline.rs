use dictation_core::pipeline::{Orchestrator, Phase, PipelineEvent, PipelineStep};
use dictation_core::script::{
    apply_conversion, convert_script, maybe_convert_chinese_variant, script_variant, ScriptVariant,
};

#[test]
fn empty_audio_skips_transcription_and_finishes_once() {
    let mut o = Orchestrator::new(false, "en");
    let mut transcribed = 0;
    let mut resets = 0;
    let mut finishes = 0;
    let mut event = PipelineEvent::AudioCaptured(false);
    loop {
        match o.advance(event) {
            PipelineStep::Transcribe => {
                transcribed += 1;
                event = PipelineEvent::Transcribed(None);
            }
            PipelineStep::ResetUi => {
                resets += 1;
                event = PipelineEvent::UiReset;
            }
            PipelineStep::Finish => {
                finishes += 1;
                break;
            }
            other => panic!("unexpected step {:?}", other),
        }
    }
    assert_eq!(transcribed, 0);
    assert_eq!(resets, 1);
    assert_eq!(finishes, 1);
    assert_eq!(o.phase(), Phase::Done);
    assert!(matches!(o.advance(PipelineEvent::UiReset), PipelineStep::Nothing));
    assert!(matches!(o.advance(PipelineEvent::AudioCaptured(true)), PipelineStep::Nothing));
}

#[test]
fn plain_transcription_is_delivered_verbatim() {
    let mut o = Orchestrator::new(false, "en");
    assert!(matches!(o.advance(PipelineEvent::AudioCaptured(true)), PipelineStep::Transcribe));
    match o.advance(PipelineEvent::Transcribed(Some("hello world".to_string()))) {
        PipelineStep::Deliver(t) => assert_eq!(t, "hello world"),
        other => panic!("unexpected step {:?}", other),
    }
    assert!(matches!(o.advance(PipelineEvent::Delivered(true)), PipelineStep::ResetUi));
    assert!(matches!(o.advance(PipelineEvent::UiReset), PipelineStep::Finish));
}

#[test]
fn failed_transcription_resets_and_finishes() {
    let mut o = Orchestrator::new(true, "en");
    o.advance(PipelineEvent::AudioCaptured(true));
    assert!(matches!(o.advance(PipelineEvent::Transcribed(None)), PipelineStep::ResetUi));
    assert!(matches!(o.advance(PipelineEvent::UiReset), PipelineStep::Finish));
}

#[test]
fn empty_transcription_is_not_delivered() {
    let mut o = Orchestrator::new(true, "en");
    o.advance(PipelineEvent::AudioCaptured(true));
    assert!(matches!(
        o.advance(PipelineEvent::Transcribed(Some(String::new()))),
        PipelineStep::ResetUi
    ));
}

#[test]
fn post_processing_result_replaces_text() {
    let mut o = Orchestrator::new(true, "en");
    o.advance(PipelineEvent::AudioCaptured(true));
    match o.advance(PipelineEvent::Transcribed(Some("raw text".to_string()))) {
        PipelineStep::PostProcess(t) => assert_eq!(t, "raw text"),
        other => panic!("unexpected step {:?}", other),
    }
    match o.advance(PipelineEvent::PostProcessed(Some("Refined text.".to_string()))) {
        PipelineStep::Deliver(t) => assert_eq!(t, "Refined text."),
        other => panic!("unexpected step {:?}", other),
    }
}

#[test]
fn post_processing_failure_keeps_text() {
    let mut o = Orchestrator::new(true, "en");
    o.advance(PipelineEvent::AudioCaptured(true));
    o.advance(PipelineEvent::Transcribed(Some("raw text".to_string())));
    match o.advance(PipelineEvent::PostProcessed(None)) {
        PipelineStep::Deliver(t) => assert_eq!(t, "raw text"),
        other => panic!("unexpected step {:?}", other),
    }
    assert!(matches!(o.advance(PipelineEvent::Delivered(false)), PipelineStep::ResetUi));
    assert!(matches!(o.advance(PipelineEvent::UiReset), PipelineStep::Finish));
}

#[test]
fn out_of_order_event_is_ignored() {
    let mut o = Orchestrator::new(false, "en");
    assert!(matches!(o.advance(PipelineEvent::UiReset), PipelineStep::Nothing));
    assert_eq!(o.phase(), Phase::AwaitingAudio);
}

#[test]
fn locale_selects_script_variant() {
    assert_eq!(script_variant("zh-Hans"), Some(ScriptVariant::Simplified));
    assert_eq!(script_variant("zh-Hant"), Some(ScriptVariant::Traditional));
    assert_eq!(script_variant("zh"), None);
    assert_eq!(script_variant("en"), None);
}

#[test]
fn simplified_locale_converts_traditional_input() {
    assert_eq!(
        maybe_convert_chinese_variant("zh-Hans", "\u{6f22}\u{5b57}"),
        Some("\u{6c49}\u{5b57}".to_string())
    );
    assert_eq!(convert_script("zh-Hans", "\u{6f22}\u{5b57}".to_string()), "\u{6c49}\u{5b57}");
}

#[test]
fn traditional_locale_converts_simplified_input() {
    assert_eq!(
        maybe_convert_chinese_variant("zh-Hant", "\u{6c49}\u{5b57}"),
        Some("\u{6f22}\u{5b57}".to_string())
    );
}

#[test]
fn other_locale_leaves_text_unchanged() {
    assert_eq!(maybe_convert_chinese_variant("en", "\u{6f22}\u{5b57}"), None);
    assert_eq!(convert_script("en", "\u{6f22}\u{5b57}".to_string()), "\u{6f22}\u{5b57}");
}

#[test]
fn failed_conversion_keeps_input() {
    assert_eq!(apply_conversion("unconverted".to_string(), None), "unconverted");
    assert_eq!(apply_conversion("unconverted".to_string(), Some("converted".to_string())), "converted");
}

#[test]
fn orchestrator_converts_before_delivery() {
    let mut o = Orchestrator::new(false, "zh-Hans");
    o.advance(PipelineEvent::AudioCaptured(true));
    match o.advance(PipelineEvent::Transcribed(Some("\u{6f22}\u{5b57}".to_string()))) {
        PipelineStep::Deliver(t) => assert_eq!(t, "\u{6c49}\u{5b57}"),
        other => panic!("unexpected step {:?}", other),
    }
}
