//! The options of one run and the choices that follow from them.

use crate::output::shape_for;
use crate::output::Shape;
use vstd::prelude::*;

verus! {

/// The textual encoding of the output.
#[derive(Clone, Copy, Debug, PartialEq, Eq, Structural)]
pub enum Encoding {
    /// JSON on a single line, without insignificant whitespace.
    CompactJson,
    /// YAML.
    Yaml,
    /// Indented, multi-line JSON.
    PrettyJson,
}

/// The encoding that a pair of flags selects: compact JSON if `use_compact`
/// is set, else YAML if `use_yaml` is set, else pretty JSON.
pub open spec fn encoding_for(use_yaml: bool, use_compact: bool) -> Encoding {
    if use_compact {
        Encoding::CompactJson
    } else if use_yaml {
        Encoding::Yaml
    } else {
        Encoding::PrettyJson
    }
}

/// Where the bytes of the sector are read from.
#[derive(Clone, Debug)]
pub enum InputSource {
    /// The file at this path.
    File(String),
    /// The standard input of the process.
    StandardInput,
}

/// An [`InputSource`] with its path as a sequence of characters.
pub enum InputSourceView {
    File(Seq<char>),
    StandardInput,
}

impl View for InputSource {
    type V = InputSourceView;

    open spec fn view(&self) -> InputSourceView {
        match self {
            InputSource::File(path) => InputSourceView::File(path@),
            InputSource::StandardInput => InputSourceView::StandardInput,
        }
    }
}

/// The source that a file argument selects: the file if a path was given,
/// else standard input.
pub open spec fn source_for(file: Option<Seq<char>>) -> InputSourceView {
    match file {
        Some(path) => InputSourceView::File(path),
        None => InputSourceView::StandardInput,
    }
}

/// The options of one run, fixed once the command line has been read.
#[derive(Clone, Debug)]
pub struct Options {
    /// Path of the sector file; standard input is read when it is absent.
    pub file: Option<String>,
    /// YAML output was asked for.
    pub use_yaml: bool,
    /// Single-line JSON output was asked for.
    pub use_compact: bool,
    /// The sector is to be converted into renderable faces.
    pub to_renderables: bool,
}

/// [`Options`] with the path as a sequence of characters.
pub struct OptionsView {
    pub file: Option<Seq<char>>,
    pub use_yaml: bool,
    pub use_compact: bool,
    pub to_renderables: bool,
}

impl OptionsView {
    /// The source these options select.
    pub open spec fn input_source(self) -> InputSourceView {
        source_for(self.file)
    }

    /// The shape these options select.
    pub open spec fn shape(self) -> Shape {
        shape_for(self.to_renderables)
    }

    /// The encoding these options select.
    pub open spec fn encoding(self) -> Encoding {
        encoding_for(self.use_yaml, self.use_compact)
    }
}

impl View for Options {
    type V = OptionsView;

    open spec fn view(&self) -> OptionsView {
        OptionsView {
            file: match self.file {
                Some(path) => Some(path@),
                None => None,
            },
            use_yaml: self.use_yaml,
            use_compact: self.use_compact,
            to_renderables: self.to_renderables,
        }
    }
}

impl Options {
    /// Options with the given file argument and flags. The flags are
    /// independent: every combination is accepted.
    pub fn new(file: Option<String>, use_yaml: bool, use_compact: bool, to_renderables: bool) -> (options: Options)
        ensures
            options.file == file,
            options.use_yaml == use_yaml,
            options.use_compact == use_compact,
            options.to_renderables == to_renderables,
    {
        Options { file, use_yaml, use_compact, to_renderables }
    }

    /// The source to read: the named file if a path was given, else standard
    /// input. Nothing is opened.
    pub fn input_source(&self) -> (source: InputSource)
        ensures
            source@ == self@.input_source(),
            self.file is None <==> source is StandardInput,
    {
        match &self.file {
            Some(path) => InputSource::File(path.clone()),
            None => InputSource::StandardInput,
        }
    }

    /// The shape of the output: renderable faces if `to_renderables` is set,
    /// else the sector as decoded.
    pub fn shape(&self) -> (shape: Shape)
        ensures
            shape == self@.shape(),
            shape == Shape::RenderableSector <==> self.to_renderables,
    {
        if self.to_renderables {
            Shape::RenderableSector
        } else {
            Shape::FileSector
        }
    }

    /// The encoding of the output. The flags are tried in a fixed order:
    /// `use_compact` first, then `use_yaml`; pretty JSON is what is left.
    pub fn encoding(&self) -> (encoding: Encoding)
        ensures
            encoding == self@.encoding(),
            self.use_compact ==> encoding == Encoding::CompactJson,
            !self.use_compact && self.use_yaml ==> encoding == Encoding::Yaml,
            !self.use_compact && !self.use_yaml ==> encoding == Encoding::PrettyJson,
    {
        if self.use_compact {
            Encoding::CompactJson
        } else if self.use_yaml {
            Encoding::Yaml
        } else {
            Encoding::PrettyJson
        }
    }
}

/// Compact JSON wins over YAML: with `use_compact` set the encoding is
/// compact JSON whatever `use_yaml` is.
pub proof fn lemma_compact_wins(use_yaml: bool)
    ensures
        encoding_for(use_yaml, true) == Encoding::CompactJson,
        encoding_for(true, true) == encoding_for(false, true),
{
}

/// Each encoding is selected by some flags, and the flags that select it are
/// exactly these.
pub proof fn lemma_encoding_table(use_yaml: bool, use_compact: bool)
    ensures
        encoding_for(use_yaml, use_compact) == Encoding::CompactJson <==> use_compact,
        encoding_for(use_yaml, use_compact) == Encoding::Yaml <==> !use_compact && use_yaml,
        encoding_for(use_yaml, use_compact) == Encoding::PrettyJson <==> !use_compact && !use_yaml,
{
}

} // verus!
