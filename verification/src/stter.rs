//! The decisions of the thread that turns recorded speech into text: when to
//! ask the model for an intermediate result, when a recording ends, and where
//! the model and its scorer are found.

use crate::paths::{path_extension, path_extension_of, path_join, path_join_of};
use crate::recorder::AudioMessage;
use vstd::prelude::*;

verus! {

/// Text decoded from speech, sent to the editor.
#[derive(Debug)]
pub enum DecodedSpeech {
    /// A guess at what has been said so far; later results replace it.
    Intermediate(String),
    /// What was said in the whole recording.
    Final(String),
}

/// An intermediate result is decoded once every this many audio chunks.
pub const INTERMEDIATE_DECODE_FREQ: u32 = 100;

/// What the speech-to-text thread does with a message from the recorder.
#[derive(Clone, Copy, Debug, PartialEq, Eq, Structural)]
pub enum SttAction {
    /// Feed the chunk to the stream, then decode an intermediate result if asked to.
    Feed { decode_intermediate: bool },
    /// Finish the stream, send its result as final, and start a new stream.
    Finish,
    /// End the thread.
    Exit,
}

/// The speech-to-text thread's step on a message, over the number of chunks
/// fed to the current stream.
pub open spec fn stt_step(chunks: nat, message: AudioMessage) -> (nat, SttAction) {
    match message {
        AudioMessage::Audio(_) => (
            chunks + 1,
            SttAction::Feed {
                decode_intermediate: (chunks + 1) % (INTERMEDIATE_DECODE_FREQ as nat) == 0,
            },
        ),
        AudioMessage::EndOf => (0, SttAction::Finish),
        AudioMessage::Exit => (chunks, SttAction::Exit),
    }
}

/// The state of one speech stream: how many audio chunks it has been fed.
pub struct SttSession {
    counter: u32,
}

impl SttSession {
    /// The number of chunks fed to the current stream.
    pub closed spec fn chunks(&self) -> nat {
        self.counter as nat
    }

    /// A session for a new stream.
    pub fn new() -> (s: SttSession)
        ensures
            s.chunks() == 0,
    {
        SttSession { counter: 0 }
    }

    /// The number of chunks fed to the current stream.
    pub fn chunk_count(&self) -> (n: u32)
        ensures
            n == self.chunks(),
    {
        self.counter
    }

    /// Takes a message from the recorder. Each audio chunk is counted, and an
    /// intermediate result is decoded after every `INTERMEDIATE_DECODE_FREQ`-th
    /// chunk of a stream; the end of a recording finishes the stream and the
    /// count starts again for the next one.
    pub fn step(&mut self, message: &AudioMessage) -> (action: SttAction)
        requires
            message is Audio ==> old(self).chunks() < u32::MAX,
        ensures
            (final(self).chunks(), action) == stt_step(old(self).chunks(), *message),
    {
        match message {
            AudioMessage::Audio(_) => {
                self.counter = self.counter + 1;
                SttAction::Feed { decode_intermediate: self.counter % INTERMEDIATE_DECODE_FREQ == 0 }
            },
            AudioMessage::EndOf => {
                self.counter = 0;
                SttAction::Finish
            },
            AudioMessage::Exit => SttAction::Exit,
        }
    }
}

/// The directory searched for a model when none is named.
pub open spec fn default_model_dir() -> Seq<char> {
    seq!['e', 'n', '-', 'm', 'o', 'd', 'e', 'l']
}

/// The model directory: the first argument given to the program, else `en-model`.
/// `args` are the program's arguments without the program's own name.
pub fn get_model_dir(args: &Vec<String>) -> (dir: String)
    ensures
        args@.len() > 0 ==> dir@ == args@[0]@,
        args@.len() == 0 ==> dir@ == default_model_dir(),
{
    if args.len() > 0 {
        args[0].clone()
    } else {
        proof {
            reveal_strlit("en-model");
            assert("en-model"@ =~= default_model_dir());
        }
        String::from_str("en-model")
    }
}

/// An entry of the model directory, as listed.
pub struct ModelDirEntry {
    pub path: String,
    pub is_file: bool,
}

/// What a directory entry is to the speech model.
#[derive(Clone, Copy, Debug, PartialEq, Eq, Structural)]
pub enum ModelFileKind {
    /// A model graph: a file ending in `.pb`, `.pbmm` or `.tflite`.
    Model,
    /// An external scorer: a file ending in `.scorer`.
    Scorer,
    /// Anything else.
    Other,
}

/// What kind of file an entry is, by whether it is a file and by its extension.
pub open spec fn kind_for_extension(is_file: bool, extension: Option<Seq<char>>) -> ModelFileKind {
    if !is_file {
        ModelFileKind::Other
    } else {
        match extension {
            Some(ext) => if ext == seq!['p', 'b'] || ext == seq!['p', 'b', 'm', 'm'] || ext == seq![
                't',
                'f',
                'l',
                'i',
                't',
                'e',
            ] {
                ModelFileKind::Model
            } else if ext == seq!['s', 'c', 'o', 'r', 'e', 'r'] {
                ModelFileKind::Scorer
            } else {
                ModelFileKind::Other
            },
            None => ModelFileKind::Other,
        }
    }
}

/// What kind of file a directory entry is, by its extension.
pub open spec fn model_file_kind(path: Seq<char>, is_file: bool) -> ModelFileKind {
    kind_for_extension(is_file, path_extension_of(path))
}

/// The path of the last entry of `entries` of the given kind, if any.
pub open spec fn last_of_kind(entries: Seq<(Seq<char>, bool)>, kind: ModelFileKind) -> Option<Seq<char>>
    decreases entries.len(),
{
    if entries.len() == 0 {
        None
    } else if model_file_kind(entries.last().0, entries.last().1) == kind {
        Some(entries.last().0)
    } else {
        last_of_kind(entries.drop_last(), kind)
    }
}

/// The entries of a listing as plain values.
pub open spec fn entries_view(entries: Seq<ModelDirEntry>) -> Seq<(Seq<char>, bool)> {
    entries.map_values(|e: ModelDirEntry| (e.path@, e.is_file))
}

/// The model graph chosen from a listing of `dir`: the last model file
/// listed, else `output_graph.pb` in `dir`.
pub open spec fn chosen_model(dir: Seq<char>, entries: Seq<(Seq<char>, bool)>) -> Seq<char> {
    match last_of_kind(entries, ModelFileKind::Model) {
        Some(path) => path,
        None => path_join_of(
            dir,
            seq!['o', 'u', 't', 'p', 'u', 't', '_', 'g', 'r', 'a', 'p', 'h', '.', 'p', 'b'],
        ),
    }
}

/// Tells what kind of file an entry is to the speech model, from whether it
/// is a file and from its extension.
pub fn classify_extension(is_file: bool, extension: Option<String>) -> (kind: ModelFileKind)
    ensures
        kind == kind_for_extension(
            is_file,
            match extension {
                Some(ext) => Some(ext@),
                None => None,
            },
        ),
{
    if !is_file {
        return ModelFileKind::Other;
    }
    match extension {
        Some(ext) => {
            let pb = String::from_str("pb");
            let pbmm = String::from_str("pbmm");
            let tflite = String::from_str("tflite");
            let scorer = String::from_str("scorer");
            proof {
                reveal_strlit("pb");
                reveal_strlit("pbmm");
                reveal_strlit("tflite");
                reveal_strlit("scorer");
                assert(pb@ =~= seq!['p', 'b']);
                assert(pbmm@ =~= seq!['p', 'b', 'm', 'm']);
                assert(tflite@ =~= seq!['t', 'f', 'l', 'i', 't', 'e']);
                assert(scorer@ =~= seq!['s', 'c', 'o', 'r', 'e', 'r']);
            }
            if ext == pb || ext == pbmm || ext == tflite {
                ModelFileKind::Model
            } else if ext == scorer {
                ModelFileKind::Scorer
            } else {
                ModelFileKind::Other
            }
        },
        None => ModelFileKind::Other,
    }
}

/// Tells what kind of file an entry is to the speech model.
fn classify_entry(entry: &ModelDirEntry) -> (kind: ModelFileKind)
    ensures
        kind == model_file_kind(entry.path@, entry.is_file),
{
    if !entry.is_file {
        return ModelFileKind::Other;
    }
    classify_extension(entry.is_file, path_extension(entry.path.as_str()))
}

/// Only `pb`, `pbmm` and `tflite` files are model graphs, and only `scorer`
/// files are scorers; directories and files without an extension are neither.
pub proof fn law_model_files_by_extension(ext: Seq<char>)
    ensures
        kind_for_extension(true, Some(ext)) == ModelFileKind::Model <==> (ext == seq!['p', 'b'] || ext
            == seq!['p', 'b', 'm', 'm'] || ext == seq!['t', 'f', 'l', 'i', 't', 'e']),
        kind_for_extension(true, Some(ext)) == ModelFileKind::Scorer <==> ext == seq![
            's',
            'c',
            'o',
            'r',
            'e',
            'r',
        ],
        kind_for_extension(false, Some(ext)) == ModelFileKind::Other,
        kind_for_extension(true, None) == ModelFileKind::Other,
{
}

/// The last entry of a kind is the one at `k` when no later entry is of that kind.
pub proof fn lemma_last_of_kind_at(entries: Seq<(Seq<char>, bool)>, kind: ModelFileKind, k: int)
    requires
        0 <= k < entries.len(),
        model_file_kind(entries[k].0, entries[k].1) == kind,
        forall|j: int| k < j < entries.len() ==> model_file_kind(entries[j].0, entries[j].1) != kind,
    ensures
        last_of_kind(entries, kind) == Some(entries[k].0),
    decreases entries.len(),
{
    if k < entries.len() - 1 {
        let d = entries.drop_last();
        assert forall|j: int| k < j < d.len() implies model_file_kind(d[j].0, d[j].1) != kind by {
            assert(d[j] == entries[j]);
        }
        lemma_last_of_kind_at(d, kind, k);
    }
}

/// Where one entry only is a model graph (a file whose extension is `pb`,
/// `pbmm` or `tflite`), that entry is the model chosen, whatever else the
/// directory holds; the same holds of the scorer.
pub proof fn law_single_model_file_is_chosen(dir: Seq<char>, entries: Seq<(Seq<char>, bool)>, k: int)
    requires
        0 <= k < entries.len(),
        entries[k].1,
        path_extension_of(entries[k].0) == Some(seq!['p', 'b']) || path_extension_of(entries[k].0) == Some(
            seq!['p', 'b', 'm', 'm'],
        ) || path_extension_of(entries[k].0) == Some(seq!['t', 'f', 'l', 'i', 't', 'e']),
        forall|j: int|
            0 <= j < entries.len() && j != k && #[trigger] entries[j].1 ==> path_extension_of(entries[j].0)
                != Some(seq!['p', 'b']) && path_extension_of(entries[j].0) != Some(seq!['p', 'b', 'm', 'm'])
                && path_extension_of(entries[j].0) != Some(seq!['t', 'f', 'l', 'i', 't', 'e']),
    ensures
        chosen_model(dir, entries) == entries[k].0,
{
    assert forall|j: int| k < j < entries.len() implies model_file_kind(entries[j].0, entries[j].1)
        != ModelFileKind::Model by {
        if entries[j].1 {
            match path_extension_of(entries[j].0) {
                Some(ext) => law_model_files_by_extension(ext),
                None => {},
            }
        }
    }
    lemma_last_of_kind_at(entries, ModelFileKind::Model, k);
}

/// Every chunk of audio is counted, and it asks for an intermediate result
/// exactly when the count it brings the stream to is a multiple of 100, at
/// any length of the stream; the end of a recording starts the count again.
pub proof fn law_decode_every_hundredth_chunk(n: nat, chunk: Vec<i16>)
    ensures
        stt_step(n, AudioMessage::Audio(chunk)).0 == n + 1,
        stt_step(n, AudioMessage::Audio(chunk)).1 == (SttAction::Feed { decode_intermediate: (n + 1) % 100 == 0 }),
        stt_step(n, AudioMessage::Audio(chunk)).1 == stt_step(n + 100, AudioMessage::Audio(chunk)).1,
        stt_step(n, AudioMessage::EndOf) == (0nat, SttAction::Finish),
        stt_step(n, AudioMessage::Exit) == (n, SttAction::Exit),
{
    assert((n + 1) % 100 == (n + 100 + 1) % 100) by (nonlinear_arith);
}

/// Picks the model graph and the external scorer from the listing of the
/// model directory `dir`: the last model file and the last scorer file
/// listed; where no model file is listed, `output_graph.pb` in `dir`.
pub fn get_model_scorer_names(dir: &str, entries: &Vec<ModelDirEntry>) -> (r: (String, Option<String>))
    ensures
        r.0@ == chosen_model(dir@, entries_view(entries@)),
        match r.1 {
            Some(scorer) => last_of_kind(entries_view(entries@), ModelFileKind::Scorer) == Some(scorer@),
            None => last_of_kind(entries_view(entries@), ModelFileKind::Scorer) is None,
        },
{
    proof {
        reveal_strlit("output_graph.pb");
        assert("output_graph.pb"@ =~= seq![
            'o', 'u', 't', 'p', 'u', 't', '_', 'g', 'r', 'a', 'p', 'h', '.', 'p', 'b',
        ]);
    }
    let mut model: Option<String> = None;
    let mut scorer: Option<String> = None;
    let ghost view = entries_view(entries@);
    let mut i: usize = 0;
    while i < entries.len()
        invariant
            0 <= i <= entries@.len(),
            view == entries_view(entries@),
            match model {
                Some(m) => last_of_kind(view.take(i as int), ModelFileKind::Model) == Some(m@),
                None => last_of_kind(view.take(i as int), ModelFileKind::Model) is None,
            },
            match scorer {
                Some(s) => last_of_kind(view.take(i as int), ModelFileKind::Scorer) == Some(s@),
                None => last_of_kind(view.take(i as int), ModelFileKind::Scorer) is None,
            },
        decreases entries@.len() - i,
    {
        let entry = &entries[i];
        let kind = classify_entry(entry);
        proof {
            assert(view.take(i + 1).drop_last() =~= view.take(i as int));
            assert(view.take(i + 1).last() == (entry.path@, entry.is_file));
        }
        match kind {
            ModelFileKind::Model => {
                model = Some(entry.path.clone());
            },
            ModelFileKind::Scorer => {
                scorer = Some(entry.path.clone());
            },
            ModelFileKind::Other => {},
        }
        i = i + 1;
    }
    proof {
        assert(view.take(entries@.len() as int) =~= view);
    }
    let model_name = match model {
        Some(m) => m,
        None => path_join(dir, "output_graph.pb"),
    };
    (model_name, scorer)
}

} // verus!
