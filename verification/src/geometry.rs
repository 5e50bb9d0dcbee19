//! The quad: its vertices and the triangles that cover it.
use vstd::prelude::*;

verus! {

/// The bytes of a 32-bit float.
pub const WORD_SIZE: usize = 4;

/// Floats per vertex: a position in three dimensions, then a colour of three
/// components.
pub const FLOATS_PER_VERTEX: usize = 6;

/// Floats in a position.
pub const FLOATS_PER_POSITION: usize = 3;

/// Data that a buffer is filled from.
#[derive(Debug, Clone, Copy, PartialEq, Eq, Structural)]
pub enum BufferContents {
    /// Four vertices.
    Vertices,
    /// Two triangles, as indices of vertices.
    Indices,
}

/// The vertices, as the bits of their floats.
pub open spec fn vertex_words() -> Seq<u32> {
    seq![
        // 0.5, 0.5, 0.0 in red
        0x3F00_0000,
        0x3F00_0000,
        0x0000_0000,
        0x3F80_0000,
        0x0000_0000,
        0x0000_0000,
        // 0.5, -0.5, 0.0 in green
        0x3F00_0000,
        0xBF00_0000,
        0x0000_0000,
        0x0000_0000,
        0x3F80_0000,
        0x0000_0000,
        // -0.5, -0.5, 0.0 in blue
        0xBF00_0000,
        0xBF00_0000,
        0x0000_0000,
        0x0000_0000,
        0x0000_0000,
        0x3F80_0000,
        // -0.5, 0.5, -0.0 in 0.2, 0.3, 0.4
        0xBF00_0000,
        0x3F00_0000,
        0x8000_0000,
        0x3E4C_CCCD,
        0x3E99_999A,
        0x3ECC_CCCD,
    ]
}

/// The triangles: the vertices 0, 1 and 3, then 1, 2 and 3.
pub open spec fn index_words() -> Seq<u32> {
    seq![0, 1, 3, 1, 2, 3]
}

impl BufferContents {
    /// The 32-bit words of the data, in order.
    pub open spec fn spec_words(self) -> Seq<u32> {
        match self {
            BufferContents::Vertices => vertex_words(),
            BufferContents::Indices => index_words(),
        }
    }

    /// The entries of the data: vertices, or indices.
    pub open spec fn spec_entries(self) -> nat {
        match self {
            BufferContents::Vertices => vertex_words().len() / FLOATS_PER_VERTEX as nat,
            BufferContents::Indices => index_words().len(),
        }
    }

    /// The bytes that an upload takes: one word for each entry.
    pub open spec fn spec_upload_size(self) -> int {
        self.spec_entries() * WORD_SIZE
    }

    /// The 32-bit words of the data, in order.
    pub fn words(self) -> (words: Vec<u32>)
        ensures
            words@ == self.spec_words(),
    {
        match self {
            BufferContents::Vertices => vec![
                0x3F00_0000, 0x3F00_0000, 0x0000_0000, 0x3F80_0000, 0x0000_0000, 0x0000_0000,
                0x3F00_0000, 0xBF00_0000, 0x0000_0000, 0x0000_0000, 0x3F80_0000, 0x0000_0000,
                0xBF00_0000, 0xBF00_0000, 0x0000_0000, 0x0000_0000, 0x0000_0000, 0x3F80_0000,
                0xBF00_0000, 0x3F00_0000, 0x8000_0000, 0x3E4C_CCCD, 0x3E99_999A, 0x3ECC_CCCD,
            ],
            BufferContents::Indices => vec![0, 1, 3, 1, 2, 3],
        }
    }

    /// The bytes that an upload takes: one word for each entry.
    ///
    /// An entry of the vertices has [`FLOATS_PER_VERTEX`] words, so this is less
    /// than all of them.
    pub fn upload_size(self) -> (size: isize)
        ensures
            size == self.spec_upload_size(),
    {
        let entries: usize = match self {
            BufferContents::Vertices => 4,
            BufferContents::Indices => 6,
        };
        (entries * WORD_SIZE) as isize
    }
}

/// An upload does not reach past the end of the data.
pub proof fn upload_is_within_the_data(contents: BufferContents)
    ensures
        0 < contents.spec_upload_size() <= contents.spec_words().len() * WORD_SIZE,
{
}

} // verus!
