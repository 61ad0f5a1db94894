//! How the speech engines are set up, and what a recording is to an engine that hears
//! it as a whole.
use super::model::ModelPaths;
use super::rewrite::lowercase;
use crate::text::{owned, parse_i32, trim};
use vstd::prelude::*;

verus! {

/// The rate of the audio, in samples per second.
pub const SAMPLE_RATE: i32 = 16000;

/// The silence that is fed before a streaming recording is finalised, in samples.
pub const FINALIZE_SILENCE_SAMPLES: usize = 9600;

/// The number of threads of an engine: the environment decides if it names a number,
/// or else the caller.
pub fn threads(preferred: i32, variable: Option<&str>) -> (n: i32)
    ensures
        n == (match variable {
            Some(text) => match crate::text::integer_of(text@) {
                Some(n) if i32::MIN <= n <= i32::MAX => n as i32,
                _ => preferred,
            },
            None => preferred,
        }),
{
    match variable {
        Some(text) => match parse_i32(text) {
            Some(n) => n,
            None => preferred,
        },
        None => preferred,
    }
}

/// The provider that the environment names.
pub open spec fn named_provider(variable: Option<Seq<char>>) -> Option<Seq<char>> {
    match variable {
        Some(text) => {
            let name = crate::asr::rewrite::lowercased(crate::text::trimmed(text));
            if name.len() > 0 {
                Some(name)
            } else {
                None
            }
        },
        None => None,
    }
}

/// The provider of an engine: the environment decides if it names one, or else the
/// caller.
pub fn provider(preferred: Option<&str>, variable: Option<&str>) -> (name: Option<String>)
    ensures
        crate::text::opt_text(name) == (match named_provider(crate::text::opt_view(variable)) {
            Some(name) => Some(name),
            None => crate::text::opt_view(preferred),
        }),
{
    if let Some(text) = variable {
        let name = lowercase(trim(text).as_str());
        if name.as_str().unicode_len() > 0 {
            return Some(name);
        }
    }
    match preferred {
        Some(name) => Some(owned(name)),
        None => None,
    }
}

/// How an engine is set up.
#[derive(Debug)]
pub struct EngineConfig {
    pub sample_rate: i32,
    pub feature_dim: i32,
    pub threads: i32,
    pub provider: Option<String>,
    /// How a streaming engine decodes.
    pub greedy: bool,
    /// Whether a streaming engine looks for the end of speech.
    pub endpoint: bool,
}

/// How the streaming engine is set up; none for the files of another engine.
pub fn streaming_config(paths: &ModelPaths, provider: Option<String>, threads: i32) -> (config:
    Option<EngineConfig>)
    ensures
        config is Some <==> paths is Nemotron,
        config matches Some(c) ==> c == (EngineConfig {
            sample_rate: 16000,
            feature_dim: 128,
            threads,
            provider,
            greedy: true,
            endpoint: false,
        }),
{
    match paths {
        ModelPaths::Nemotron { .. } => Some(
            EngineConfig {
                sample_rate: SAMPLE_RATE,
                feature_dim: 128,
                threads,
                provider,
                greedy: true,
                endpoint: false,
            },
        ),
        _ => None,
    }
}

/// How the engine that hears a recording as a whole is set up; none for the files of
/// another engine.
pub fn whole_config(paths: &ModelPaths, provider: Option<String>, threads: i32) -> (config: Option<
    EngineConfig,
>)
    ensures
        config is Some <==> paths is Moonshine,
        config matches Some(c) ==> c == (EngineConfig {
            sample_rate: 16000,
            feature_dim: 80,
            threads,
            provider,
            greedy: false,
            endpoint: false,
        }),
{
    match paths {
        ModelPaths::Moonshine { .. } => Some(
            EngineConfig {
                sample_rate: SAMPLE_RATE,
                feature_dim: 80,
                threads,
                provider,
                greedy: false,
                endpoint: false,
            },
        ),
        _ => None,
    }
}

/// A recording that is gathered before it is heard as a whole.
#[derive(Debug)]
pub struct Recording<T> {
    /// The samples; none while no session is open.
    pub session: Option<Vec<T>>,
}

impl<T: Copy> Recording<T> {
    /// The samples of the session.
    pub open spec fn samples(self) -> Option<Seq<T>> {
        match self.session {
            Some(samples) => Some(samples@),
            None => None,
        }
    }

    /// An engine that was just loaded has an open session.
    pub fn new() -> (recording: Recording<T>)
        ensures
            recording.samples() == Some(Seq::<T>::empty()),
    {
        let samples: Vec<T> = Vec::new();
        assert(samples@ =~= Seq::<T>::empty());
        Recording { session: Some(samples) }
    }

    /// Opens a session, without what was gathered before.
    pub fn start_session(&mut self)
        ensures
            final(self).samples() == Some(Seq::<T>::empty()),
    {
        let samples: Vec<T> = Vec::new();
        assert(samples@ =~= Seq::<T>::empty());
        self.session = Some(samples);
    }

    /// Gathers audio; it is dropped while no session is open.
    pub fn feed_audio(&mut self, audio: &[T])
        ensures
            final(self).samples() == (match old(self).samples() {
                Some(samples) => Some(samples + audio@),
                None => None,
            }),
    {
        let mut session: Option<Vec<T>> = None;
        std::mem::swap(&mut session, &mut self.session);
        if let Some(mut samples) = session {
            let ghost before = samples@;
            let mut i: usize = 0;
            assert(before + audio@.subrange(0, 0) =~= before);
            while i < audio.len()
                invariant
                    i <= audio@.len(),
                    samples@ == before + audio@.subrange(0, i as int),
                decreases audio@.len() - i,
            {
                samples.push(audio[i]);
                i += 1;
                assert(samples@ =~= before + audio@.subrange(0, i as int));
            }
            assert(audio@.subrange(0, i as int) =~= audio@);
            self.session = Some(samples);
        }
    }

    /// Closes the session: what is to be heard, if there is anything. Without it the
    /// text is empty.
    pub fn finalize(&mut self) -> (heard: Option<Vec<T>>)
        ensures
            final(self).samples() is None,
            match heard {
                Some(heard) => old(self).samples() == Some(heard@) && heard@.len() > 0,
                None => match old(self).samples() {
                    Some(samples) => samples.len() == 0,
                    None => true,
                },
            },
    {
        let mut session: Option<Vec<T>> = None;
        std::mem::swap(&mut session, &mut self.session);
        match session {
            Some(samples) => if samples.len() > 0 {
                Some(samples)
            } else {
                None
            },
            None => None,
        }
    }
}

/// What comes of a partial text: an empty one is none.
pub fn partial(text: Option<String>) -> (partial: Option<String>)
    ensures
        crate::text::opt_text(partial) == (match text {
            Some(text) if text@.len() > 0 => Some(text@),
            _ => None,
        }),
{
    match text {
        Some(text) => if text.as_str().unicode_len() > 0 {
            Some(text)
        } else {
            None
        },
        None => None,
    }
}

/// The environment names a provider with anything but white space: in small letters and
/// trimmed. A variable of white space names none.
pub proof fn blank_variables_name_no_provider(text: Seq<char>)
    ensures
        named_provider(None) is None,
        ({
            let name = crate::asr::rewrite::lowercased(crate::text::trimmed(text));
            &&& name.len() == 0 ==> named_provider(Some(text)) is None
            &&& name.len() > 0 ==> named_provider(Some(text)) == Some(name)
        }),
{
}

/// Each engine takes the files of its own model only, and audio of sixteen thousand samples
/// a second, with the provider and the threads that were picked.
pub proof fn engines_take_their_own_files(
    paths: ModelPaths,
    provider: Option<String>,
    threads: i32,
    streaming: Option<EngineConfig>,
    whole: Option<EngineConfig>,
)
    requires
        call_ensures(streaming_config, (&paths, provider, threads), streaming),
        call_ensures(whole_config, (&paths, provider, threads), whole),
    ensures
        streaming is Some <==> paths is Nemotron,
        whole is Some <==> paths is Moonshine,
        streaming is Some ==> streaming->0.sample_rate == 16_000 && streaming->0.threads == threads
            && streaming->0.provider == provider && !streaming->0.endpoint,
        whole is Some ==> whole->0.sample_rate == 16_000 && whole->0.threads == threads
            && whole->0.provider == provider && !whole->0.endpoint,
{
}

/// A partial is told where it holds anything.
pub proof fn partials_hold_something(text: Option<String>, told: Option<String>)
    requires
        call_ensures(partial, (text,), told),
    ensures
        told is Some <==> text is Some && text->0@.len() > 0,
        told is Some ==> told->0@ == text->0@,
{
}

} // verus!
