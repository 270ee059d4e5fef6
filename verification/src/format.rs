//! The transform chain encoded by an input file's extensions.
//!
//! A chain is written outermost transform first: `archive.tar.gz` was produced
//! by applying tar, then gzip, so its chain is `[Gzip, Tar]`. Formats fall in
//! two families: layerable byte-stream transforms, which compose freely, and
//! terminal archive formats, which yield named entries and may only stand
//! innermost, that is last.

use vstd::prelude::*;

verus! {

/// One transform named by an extension of the input file.
#[derive(Clone, Copy, Debug, PartialEq, Eq, Structural)]
pub enum CompressionFormat {
    Gzip,
    Bzip,
    Lz4,
    Lzma,
    Snappy,
    Zstd,
    Tar,
    Zip,
    Rar,
    SevenZip,
}

/// A pure byte-stream transform: composable in any order and position.
#[derive(Clone, Copy, Debug, PartialEq, Eq, Structural)]
pub enum LayerFormat {
    Gzip,
    Bzip,
    Lz4,
    Lzma,
    Snappy,
    Zstd,
}

/// An archive format: yields named entries, valid only as the innermost
/// transform.
#[derive(Clone, Copy, Debug, PartialEq, Eq, Structural)]
pub enum TerminalFormat {
    Tar,
    Zip,
    Rar,
    SevenZip,
}

pub open spec fn as_layer(f: CompressionFormat) -> Option<LayerFormat> {
    match f {
        CompressionFormat::Gzip => Some(LayerFormat::Gzip),
        CompressionFormat::Bzip => Some(LayerFormat::Bzip),
        CompressionFormat::Lz4 => Some(LayerFormat::Lz4),
        CompressionFormat::Lzma => Some(LayerFormat::Lzma),
        CompressionFormat::Snappy => Some(LayerFormat::Snappy),
        CompressionFormat::Zstd => Some(LayerFormat::Zstd),
        _ => None,
    }
}

pub open spec fn as_terminal(f: CompressionFormat) -> Option<TerminalFormat> {
    match f {
        CompressionFormat::Tar => Some(TerminalFormat::Tar),
        CompressionFormat::Zip => Some(TerminalFormat::Zip),
        CompressionFormat::Rar => Some(TerminalFormat::Rar),
        CompressionFormat::SevenZip => Some(TerminalFormat::SevenZip),
        _ => None,
    }
}

/// Every format belongs to exactly one of the two families.
pub proof fn lemma_format_families(f: CompressionFormat)
    ensures
        as_layer(f) is Some <==> as_terminal(f) is None,
{
}

impl CompressionFormat {
    /// The layerable family member this format is, if it is one.
    pub fn layer(self) -> (r: Option<LayerFormat>)
        ensures
            r == as_layer(self),
    {
        match self {
            CompressionFormat::Gzip => Some(LayerFormat::Gzip),
            CompressionFormat::Bzip => Some(LayerFormat::Bzip),
            CompressionFormat::Lz4 => Some(LayerFormat::Lz4),
            CompressionFormat::Lzma => Some(LayerFormat::Lzma),
            CompressionFormat::Snappy => Some(LayerFormat::Snappy),
            CompressionFormat::Zstd => Some(LayerFormat::Zstd),
            _ => None,
        }
    }

    /// The terminal family member this format is, if it is one.
    pub fn terminal(self) -> (r: Option<TerminalFormat>)
        ensures
            r == as_terminal(self),
    {
        match self {
            CompressionFormat::Tar => Some(TerminalFormat::Tar),
            CompressionFormat::Zip => Some(TerminalFormat::Zip),
            CompressionFormat::Rar => Some(TerminalFormat::Rar),
            CompressionFormat::SevenZip => Some(TerminalFormat::SevenZip),
            _ => None,
        }
    }
}

/// A chain is acceptable when it is non-empty and every element before the
/// last is layerable; only the last element may be a terminal format.
pub open spec fn valid_format_seq(s: Seq<CompressionFormat>) -> bool {
    &&& s.len() > 0
    &&& forall|i: int| 0 <= i < s.len() - 1 ==> #[trigger] as_layer(s[i]) is Some
}

/// How many leading elements of the chain are compression layers: all of
/// them, unless the chain ends in a terminal format.
pub open spec fn spec_layer_len(s: Seq<CompressionFormat>) -> int {
    if s.len() > 0 && as_terminal(s.last()) is Some {
        s.len() - 1
    } else {
        s.len() as int
    }
}

/// A validated transform chain, split so that a terminal format inside the
/// layer sequence is unrepresentable: the layerable prefix, outermost first,
/// and the optional innermost archive format.
#[derive(Debug)]
pub struct FormatDescriptor {
    pub layers: Vec<LayerFormat>,
    pub terminal: Option<TerminalFormat>,
}

/// Why a raw format chain was rejected.
#[derive(Clone, Copy, Debug, PartialEq, Eq, Structural)]
pub enum DescriptorError {
    /// The chain held no format at all.
    Empty,
    /// A terminal archive format stood somewhere other than last.
    MisplacedTerminal,
}

impl FormatDescriptor {
    /// A descriptor always describes at least one transform.
    pub open spec fn well_formed(self) -> bool {
        self.layers@.len() > 0 || self.terminal is Some
    }

    /// This descriptor is the faithful split of the raw chain `s`.
    pub open spec fn describes(self, s: Seq<CompressionFormat>) -> bool {
        &&& self.layers@.len() == spec_layer_len(s)
        &&& forall|j: int|
            0 <= j < self.layers@.len() ==> Some(#[trigger] self.layers@[j]) == as_layer(s[j])
        &&& self.terminal == (if s.len() > 0 {
            as_terminal(s.last())
        } else {
            None::<TerminalFormat>
        })
    }

    /// Splits a raw chain, outermost first, into its layerable prefix and
    /// optional terminal format, rejecting empty chains and chains with a
    /// terminal format anywhere but last.
    pub fn from_formats(formats: &Vec<CompressionFormat>) -> (r: Result<
        FormatDescriptor,
        DescriptorError,
    >)
        ensures
            match r {
                Ok(d) => valid_format_seq(formats@) && d.well_formed() && d.describes(formats@),
                Err(DescriptorError::Empty) => formats@.len() == 0,
                Err(DescriptorError::MisplacedTerminal) => formats@.len() > 0 && !valid_format_seq(
                    formats@,
                ),
            },
    {
        let n = formats.len();
        if n == 0 {
            return Err(DescriptorError::Empty);
        }
        let terminal = formats[n - 1].terminal();
        let layer_end: usize = if terminal.is_some() {
            n - 1
        } else {
            n
        };
        let mut layers: Vec<LayerFormat> = Vec::new();
        let mut i: usize = 0;
        while i < layer_end
            invariant
                n == formats@.len(),
                n > 0,
                layer_end == (if as_terminal(formats@.last()) is Some {
                    n - 1
                } else {
                    n as int
                }),
                terminal == as_terminal(formats@.last()),
                0 <= i <= layer_end,
                layers@.len() == i as int,
                forall|j: int| 0 <= j < i ==> Some(#[trigger] layers@[j]) == as_layer(formats@[j]),
            decreases layer_end - i,
        {
            match formats[i].layer() {
                Some(l) => layers.push(l),
                None => {
                    proof {
                        lemma_format_families(formats@[i as int]);
                    }
                    return Err(DescriptorError::MisplacedTerminal);
                },
            }
            i += 1;
        }
        proof {
            assert forall|k: int| 0 <= k < formats@.len() - 1 implies #[trigger] as_layer(
                formats@[k],
            ) is Some by {
                assert(Some(layers@[k]) == as_layer(formats@[k]));
            }
        }
        Ok(FormatDescriptor { layers, terminal })
    }
}

} // verus!
