//! Sounds that the app plays, and the pieces in which captured audio is handed on.
use vstd::prelude::*;

verus! {

/// The rate of captured audio, in samples per second.
pub const TARGET_SAMPLE_RATE: u32 = 16000;

/// The number of samples in a piece.
pub const CHUNK_SAMPLES: usize = 480;

/// A sound that tells the user what happened.
#[derive(Clone, Copy, Debug, PartialEq, Eq, Structural)]
pub enum Sound {
    Start,
    Stop,
    Cancel,
    Success,
    Failure,
}

impl Sound {
    /// The file of a sound.
    pub open spec fn file_of(self) -> Seq<char> {
        match self {
            Sound::Start => "alert-01.mp3"@,
            Sound::Stop => "staplebops-01.mp3"@,
            Sound::Cancel | Sound::Failure => "nope-03.mp3"@,
            Sound::Success => "yup-01.mp3"@,
        }
    }

    /// The file of a sound.
    pub fn file(self) -> (name: &'static str)
        ensures
            name@ == self.file_of(),
    {
        match self {
            Sound::Start => "alert-01.mp3",
            Sound::Stop => "staplebops-01.mp3",
            Sound::Cancel | Sound::Failure => "nope-03.mp3",
            Sound::Success => "yup-01.mp3",
        }
    }
}

/// The rate to convert captured audio from, where it is not the one that is wanted.
pub fn resample_from(device_rate: u32) -> (rate: Option<u32>)
    ensures
        rate == rate_to_change(device_rate),
{
    if device_rate == TARGET_SAMPLE_RATE {
        None
    } else {
        Some(device_rate)
    }
}

/// Gathers samples into pieces of equal size.
#[derive(Debug)]
pub struct Chunker<T> {
    pub buffer: Vec<T>,
}

impl<T> Chunker<T> {
    /// Less than a piece is held back.
    pub open spec fn well_formed(self) -> bool {
        self.buffer@.len() < CHUNK_SAMPLES
    }

    /// Nothing gathered.
    pub fn new() -> (chunker: Chunker<T>)
        ensures
            chunker.well_formed(),
            chunker.buffer@.len() == 0,
    {
        Chunker { buffer: Vec::new() }
    }

    /// Takes in a sample: a piece, once it is complete.
    pub fn push(&mut self, sample: T) -> (piece: Option<Vec<T>>)
        requires
            old(self).well_formed(),
        ensures
            final(self).well_formed(),
            match piece {
                Some(piece) => {
                    &&& piece@ == old(self).buffer@.push(sample)
                    &&& piece@.len() == CHUNK_SAMPLES
                    &&& final(self).buffer@.len() == 0
                },
                None => {
                    &&& final(self).buffer@ == old(self).buffer@.push(sample)
                    &&& old(self).buffer@.len() + 1 < CHUNK_SAMPLES
                },
            },
    {
        self.buffer.push(sample);
        if self.buffer.len() == CHUNK_SAMPLES {
            let mut piece: Vec<T> = Vec::new();
            std::mem::swap(&mut piece, &mut self.buffer);
            Some(piece)
        } else {
            None
        }
    }
}

/// The pieces that samples are handed on in.
pub open spec fn pieces<T>(samples: Seq<T>) -> Seq<Seq<T>> {
    Seq::new(
        samples.len() / CHUNK_SAMPLES as nat,
        |i: int| samples.subrange(i * CHUNK_SAMPLES, (i + 1) * CHUNK_SAMPLES),
    )
}

/// The samples behind the last whole piece.
pub open spec fn held_back<T>(samples: Seq<T>) -> Seq<T> {
    samples.subrange(
        samples.len() - samples.len() % CHUNK_SAMPLES as nat,
        samples.len() as int,
    )
}

/// How audio is cut into pieces does not depend on how it comes in: what comes in two
/// parts is cut as the whole is.
pub proof fn pieces_do_not_depend_on_the_parts<T>(first: Seq<T>, second: Seq<T>)
    ensures
        pieces(first) + pieces(held_back(first) + second) == pieces(first + second),
        held_back(held_back(first) + second) == held_back(first + second),
{
    let all = first + second;
    let rest = held_back(first) + second;
    let n = first.len() / 480;
    assert(first.len() == 480 * n + first.len() % 480);
    assert(all.len() == 480 * n + rest.len());
    assert(all.len() / 480 == n + rest.len() / 480);
    assert(all.len() % 480 == rest.len() % 480);
    assert forall|i: int| 0 <= i < rest.len() implies rest[i] == all[480 * n + i] by {}
    assert(pieces(first) + pieces(rest) =~= pieces(all)) by {
        assert forall|i: int| 0 <= i < all.len() / 480 implies (pieces(first) + pieces(rest))[i]
            == pieces(all)[i] by {
            if i < n {
                assert(pieces(first)[i] =~= pieces(all)[i]);
            } else {
                assert(pieces(rest)[i - n] =~= pieces(all)[i]);
            }
        }
    }
    assert(held_back(rest) =~= held_back(all));
}

/// Hands samples to a chunker, one after the other: what it held back comes first, and
/// what is not a whole piece is held back again.
pub fn push_all<T: Copy>(chunker: &mut Chunker<T>, samples: &[T]) -> (handed: Vec<Vec<T>>)
    requires
        old(chunker).well_formed(),
    ensures
        final(chunker).well_formed(),
        ({
            let all = old(chunker).buffer@ + samples@;
            &&& handed@.map_values(|v: Vec<T>| v@) == pieces(all)
            &&& final(chunker).buffer@ == held_back(all)
        }),
{
    let ghost all = chunker.buffer@ + samples@;
    let ghost kept = chunker.buffer@.len();
    let mut handed: Vec<Vec<T>> = Vec::new();
    let mut i: usize = 0;
    let ghost mut sent: int = 0;
    assert(handed@.map_values(|v: Vec<T>| v@) =~= pieces(all).subrange(0, 0));
    assert(chunker.buffer@ =~= all.subrange(0, kept as int));
    assert(all.subrange(kept as int, all.len() as int) =~= samples@);
    while i < samples.len()
        invariant
            i <= samples@.len(),
            all.len() == kept + samples@.len(),
            all.subrange(kept as int, all.len() as int) == samples@,
            chunker.well_formed(),
            0 <= sent,
            sent == handed@.len(),
            kept + i == sent * CHUNK_SAMPLES + chunker.buffer@.len(),
            chunker.buffer@ == all.subrange(sent * CHUNK_SAMPLES, kept + i),
            handed@.map_values(|v: Vec<T>| v@) == pieces(all).subrange(0, sent),
            sent <= all.len() / CHUNK_SAMPLES as nat,
        decreases samples@.len() - i,
    {
        let ghost before = handed@;
        assert(samples@[i as int] == all[kept + i]);
        let next = chunker.push(samples[i]);
        i += 1;
        match next {
            Some(piece) => {
                assert(piece@ =~= all.subrange(sent * CHUNK_SAMPLES, (sent + 1) * CHUNK_SAMPLES));
                handed.push(piece);
                proof {
                    sent = sent + 1;
                    assert(sent * 480 <= all.len());
                    assert(sent <= all.len() / 480);
                    assert(handed@.map_values(|v: Vec<T>| v@) =~= before.map_values(
                        |v: Vec<T>| v@,
                    ).push(piece@));
                    assert(handed@.map_values(|v: Vec<T>| v@) =~= pieces(all).subrange(0, sent));
                    assert(chunker.buffer@ =~= all.subrange(sent * CHUNK_SAMPLES, kept + i));
                }
            },
            None => {
                assert(chunker.buffer@ =~= all.subrange(sent * CHUNK_SAMPLES, kept + i));
            },
        }
    }
    proof {
        assert(all.len() / 480 == sent);
        assert(all.len() % 480 == all.len() - sent * 480);
        assert(pieces(all).subrange(0, sent) =~= pieces(all));
    }
    handed
}

/// The rate that captured audio is changed from, if it has to be.
pub open spec fn rate_to_change(device_rate: u32) -> Option<u32> {
    if device_rate == TARGET_SAMPLE_RATE {
        None
    } else {
        Some(device_rate)
    }
}

/// Audio is changed from the rate of the device exactly where that is not the sixteen
/// thousand samples a second that the engines take.
pub proof fn engines_get_their_rate(device_rate: u32)
    ensures
        device_rate == 16_000 <==> rate_to_change(device_rate) is None,
        device_rate != 16_000 ==> rate_to_change(device_rate) == Some(device_rate),
{
}

/// A recording that is thrown away and one that failed sound the same, and a start, a stop
/// and a success each otherwise.
pub proof fn outcomes_have_their_sounds(sound: Sound)
    ensures
        sound.file_of() == "nope-03.mp3"@ <==> sound == Sound::Cancel || sound == Sound::Failure,
        sound.file_of() == "yup-01.mp3"@ <==> sound == Sound::Success,
        sound.file_of() == "alert-01.mp3"@ <==> sound == Sound::Start,
        sound.file_of() == "staplebops-01.mp3"@ <==> sound == Sound::Stop,
{
    reveal_strlit("nope-03.mp3");
    reveal_strlit("yup-01.mp3");
    reveal_strlit("alert-01.mp3");
    reveal_strlit("staplebops-01.mp3");
    assert("nope-03.mp3"@[0] == 'n' && "yup-01.mp3"@[0] == 'y' && "alert-01.mp3"@[0] == 'a'
        && "staplebops-01.mp3"@[0] == 's');
}

/// No captured sample is lost, doubled or moved: the pieces have thirty milliseconds of
/// samples each, and one behind the other, with what is held back last, they are what was
/// captured.
pub proof fn captured_samples_are_kept<T>(samples: Seq<T>, i: int)
    requires
        0 <= i < samples.len(),
    ensures
        forall|k: int|
            0 <= k < pieces(samples).len() ==> (#[trigger] pieces(samples)[k]).len() == 480,
        held_back(samples).len() < 480,
        480 * pieces(samples).len() + held_back(samples).len() == samples.len(),
        i < 480 * pieces(samples).len() ==> pieces(samples)[i / 480][i % 480] == samples[i],
        i >= 480 * pieces(samples).len() ==> held_back(samples)[i - 480 * pieces(samples).len()]
            == samples[i],
{
    let n = pieces(samples).len() as int;
    assert(n == samples.len() / 480);
    if i < 480 * n {
        assert(0 <= i / 480 < n);
        assert(pieces(samples)[i / 480] == samples.subrange(i / 480 * 480, (i / 480 + 1) * 480));
    }
}

} // verus!
