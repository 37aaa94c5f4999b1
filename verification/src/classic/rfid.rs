use vstd::prelude::*;

verus! {

/// How many blocks of a tag are read.
pub const N_BLOCKS: u8 = 4;

/// How many bytes of a block are read.
pub const N_BLOCK_SIZE: u8 = 16;

/// How far the reading of a tag has come: the block to read next, and the
/// position within a block where reading continues.
#[derive(Debug, Clone, Copy)]
pub struct TagCursor {
    current_block: u8,
    current_pos_in_block: u8,
}

impl TagCursor {
    pub closed spec fn block(&self) -> u8 {
        self.current_block
    }

    pub closed spec fn pos_in_block(&self) -> u8 {
        self.current_pos_in_block
    }

    /// The cursor stays within the blocks of a tag.
    #[verifier::type_invariant]
    spec fn inv(&self) -> bool {
        self.current_block <= N_BLOCKS && self.current_pos_in_block < N_BLOCK_SIZE
    }

    /// A cursor at the start of a tag.
    pub fn new() -> (c: Self)
        ensures
            c.block() == 0,
            c.pos_in_block() == 0,
    {
        TagCursor { current_block: 0, current_pos_in_block: 0 }
    }

    /// Whether every block has been read.
    pub fn at_end(&self) -> (r: bool)
        ensures
            r == (self.block() == N_BLOCKS),
    {
        self.current_block == N_BLOCKS
    }

    /// The block to read next.
    pub fn block_to_read(&self) -> (r: u8)
        ensures
            r == self.block(),
    {
        self.current_block
    }

    /// Copies from the block just read, `data`, into `buf`: from the
    /// current position to the end of the block, as far as `buf` reaches.
    /// Reading moves on to the next block.
    pub fn copy_block(&mut self, data: &[u8], buf: &mut [u8]) -> (n: usize)
        requires
            old(self).block() < N_BLOCKS,
            data@.len() >= N_BLOCK_SIZE,
        ensures
            final(self).pos_in_block() < N_BLOCK_SIZE,
            n == if old(buf)@.len() < N_BLOCK_SIZE - old(self).pos_in_block() {
                old(buf)@.len() as int
            } else {
                N_BLOCK_SIZE - old(self).pos_in_block()
            },
            final(buf)@ == data@.subrange(
                old(self).pos_in_block() as int,
                old(self).pos_in_block() + n,
            ) + old(buf)@.subrange(n as int, old(buf)@.len() as int),
            final(self).block() == old(self).block() + 1,
            final(self).pos_in_block() == (old(self).pos_in_block() + n) % (N_BLOCK_SIZE as int),
    {
        proof {
            use_type_invariant(&*self);
        }
        let pos = self.current_pos_in_block;
        let room = N_BLOCK_SIZE - pos;
        let bytes_to_copy: u8 = if buf.len() < room as usize {
            buf.len() as u8
        } else {
            room
        };
        let ghost old_buf = buf@;
        let mut i: u8 = 0;
        while i < bytes_to_copy
            invariant
                pos < N_BLOCK_SIZE,
                bytes_to_copy <= N_BLOCK_SIZE - pos,
                bytes_to_copy <= buf@.len(),
                buf@.len() == old_buf.len(),
                data@.len() >= N_BLOCK_SIZE,
                i <= bytes_to_copy,
                forall|j: int| 0 <= j < i ==> buf@[j] == data@[pos + j],
                forall|j: int| i <= j < buf@.len() ==> buf@[j] == old_buf[j],
            decreases bytes_to_copy - i,
        {
            buf[i as usize] = data[(pos + i) as usize];
            i = i + 1;
        }
        proof {
            assert(buf@ =~= data@.subrange(pos as int, pos + bytes_to_copy)
                + old_buf.subrange(bytes_to_copy as int, old_buf.len() as int));
        }
        *self = TagCursor {
            current_block: self.current_block + 1,
            current_pos_in_block: (pos + bytes_to_copy) % N_BLOCK_SIZE,
        };
        bytes_to_copy as usize
    }
}

/// How many bytes the blocks of a tag that are read hold together:
/// `N_BLOCKS` blocks of `N_BLOCK_SIZE` bytes.
pub const TAG_CAPACITY: usize = 64;

/// Where the text in `bytes` ends: at the first zero byte, or at the end.
pub open spec fn text_end(bytes: Seq<u8>, end: int) -> bool {
    &&& 0 <= end <= bytes.len()
    &&& forall|j: int| 0 <= j < end ==> bytes[j] != 0
    &&& end == bytes.len() || bytes[end] == 0
}

/// The text stored in the data read from a tag: the bytes up to the first
/// zero byte.
pub fn tag_text(bytes: &[u8]) -> (r: Vec<u8>)
    ensures
        exists|end: int| text_end(bytes@, end) && r@ == bytes@.subrange(0, end),
{
    let mut r: Vec<u8> = Vec::new();
    let mut i: usize = 0;
    while i < bytes.len() && bytes[i] != 0
        invariant
            i <= bytes@.len(),
            forall|j: int| 0 <= j < i ==> bytes@[j] != 0,
            r@ == bytes@.subrange(0, i as int),
        decreases bytes@.len() - i,
    {
        r.push(bytes[i]);
        proof {
            assert(bytes@.subrange(0, i + 1) == bytes@.subrange(0, i as int).push(bytes@[i as int]));
        }
        i = i + 1;
    }
    assert(text_end(bytes@, i as int));
    r
}

/// The data to write on a tag to store `text`: the text followed by zero
/// bytes up to the capacity of the tag.  A text that does not leave room
/// for its terminating zero byte cannot be stored.
pub fn tag_image(text: &[u8]) -> (r: Option<Vec<u8>>)
    ensures
        text@.len() >= TAG_CAPACITY ==> r is None,
        text@.len() < TAG_CAPACITY ==> (r matches Some(image) && image@.len() == TAG_CAPACITY
            && image@.subrange(0, text@.len() as int) == text@ && forall|j: int|
            text@.len() <= j < TAG_CAPACITY ==> image@[j] == 0),
{
    if text.len() >= TAG_CAPACITY {
        return None;
    }
    let mut image: Vec<u8> = Vec::new();
    let mut i: usize = 0;
    while i < TAG_CAPACITY
        invariant
            text@.len() < TAG_CAPACITY,
            i <= TAG_CAPACITY,
            image@.len() == i,
            forall|j: int| 0 <= j < i && j < text@.len() ==> image@[j] == text@[j],
            forall|j: int| text@.len() <= j < i ==> image@[j] == 0,
        decreases TAG_CAPACITY - i,
    {
        if i < text.len() {
            image.push(text[i]);
        } else {
            image.push(0);
        }
        i = i + 1;
    }
    assert(image@.subrange(0, text@.len() as int) =~= text@);
    Some(image)
}

/// Reading a stored text back gives the text, where it holds no zero byte.
pub proof fn stored_text_reads_back(text: Seq<u8>, image: Seq<u8>, end: int)
    requires
        text.len() < TAG_CAPACITY,
        forall|j: int| 0 <= j < text.len() ==> text[j] != 0,
        image.len() == TAG_CAPACITY,
        image.subrange(0, text.len() as int) == text,
        forall|j: int| text.len() <= j < TAG_CAPACITY ==> image[j] == 0,
        text_end(image, end),
    ensures
        image.subrange(0, end) == text,
{
    assert(image[text.len() as int] == 0);
    if end < text.len() {
        assert(image[end] == image.subrange(0, text.len() as int)[end]);
    }
    assert(end == text.len());
}

} // verus!
