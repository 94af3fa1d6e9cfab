//! A circular buffer for storing log messages when no other logging method
//! is available.

use vstd::prelude::*;

verus! {

/// Size of the circular log buffer in bytes.
pub const LOG_BUFFER_SIZE: usize = 4096;

/// The buffer contents after writing `data` starting at position `pos`,
/// wrapping around at the buffer's size: the bytes land one after another at
/// positions `pos`, `pos + 1`, ... modulo the size.
pub open spec fn wrapped_write(buf: Seq<u8>, pos: int, data: Seq<u8>) -> Seq<u8>
    decreases data.len(),
{
    if data.len() == 0 {
        buf
    } else {
        wrapped_write(
            buf.update(pos % (LOG_BUFFER_SIZE as int), data[0]),
            pos + 1,
            data.skip(1),
        )
    }
}

/// Writing one more byte lands it at the next wrapped position.
proof fn lemma_wrapped_write_snoc(buf: Seq<u8>, pos: int, data: Seq<u8>, byte: u8)
    requires
        pos >= 0,
    ensures
        wrapped_write(buf, pos, data.push(byte)) == wrapped_write(buf, pos, data).update(
            (pos + data.len()) % (LOG_BUFFER_SIZE as int),
            byte,
        ),
    decreases data.len(),
{
    if data.len() == 0 {
        assert(data.push(byte)[0] == byte);
        assert(data.push(byte).skip(1) =~= Seq::<u8>::empty());
        assert(wrapped_write(buf, pos, data) == buf);
        let buf1 = buf.update(pos % (LOG_BUFFER_SIZE as int), byte);
        assert(wrapped_write(buf, pos, data.push(byte)) == wrapped_write(
            buf1,
            pos + 1,
            data.push(byte).skip(1),
        ));
        assert(wrapped_write(buf1, pos + 1, data.push(byte).skip(1)) == buf1);
    } else {
        let buf1 = buf.update(pos % (LOG_BUFFER_SIZE as int), data[0]);
        assert(data.push(byte)[0] == data[0]);
        assert(data.push(byte).skip(1) =~= data.skip(1).push(byte));
        assert(wrapped_write(buf, pos, data.push(byte)) == wrapped_write(
            buf1,
            pos + 1,
            data.skip(1).push(byte),
        ));
        lemma_wrapped_write_snoc(buf1, pos + 1, data.skip(1), byte);
        assert(wrapped_write(buf, pos, data) == wrapped_write(buf1, pos + 1, data.skip(1)));
        assert(pos + 1 + data.skip(1).len() == pos + data.len());
    }
}

/// A wrapped write never changes the buffer's length.
proof fn lemma_wrapped_write_len(buf: Seq<u8>, pos: int, data: Seq<u8>)
    requires
        buf.len() == LOG_BUFFER_SIZE,
    ensures
        wrapped_write(buf, pos, data).len() == buf.len(),
    decreases data.len(),
{
    if data.len() != 0 {
        lemma_wrapped_write_len(
            buf.update(pos % (LOG_BUFFER_SIZE as int), data[0]),
            pos + 1,
            data.skip(1),
        );
    }
}

/// A circular buffer for storing log messages when no other logging is
/// available. The write position advances modulo the buffer size; older
/// bytes are overwritten once the buffer wraps.
pub struct LogBuffer {
    /// The actual buffer storage.
    pub buffer: Vec<u8>,
    /// Current write position in the buffer.
    pub position: usize,
}

impl LogBuffer {
    /// The buffer always spans exactly [`LOG_BUFFER_SIZE`] bytes and its
    /// write position stays inside it.
    pub open spec fn wf(&self) -> bool {
        self.buffer@.len() == LOG_BUFFER_SIZE && self.position < LOG_BUFFER_SIZE
    }

    /// Creates a new, empty log buffer.
    pub fn new() -> (r: Self)
        ensures
            r.wf(),
            r.position == 0,
            r.buffer@ =~= Seq::new(LOG_BUFFER_SIZE as nat, |i: int| 0u8),
    {
        let mut buffer: Vec<u8> = Vec::new();
        let mut i: usize = 0;
        while i < LOG_BUFFER_SIZE
            invariant
                i <= LOG_BUFFER_SIZE,
                buffer@ =~= Seq::new(i as nat, |j: int| 0u8),
            decreases LOG_BUFFER_SIZE - i,
        {
            buffer.push(0);
            i = i + 1;
        }
        LogBuffer { buffer, position: 0 }
    }

    /// Writes data to the buffer, wrapping around if necessary.
    pub fn write_to_buffer(&mut self, data: &[u8])
        requires
            old(self).wf(),
            data@.len() <= usize::MAX - LOG_BUFFER_SIZE,
        ensures
            final(self).wf(),
            final(self).buffer@ == wrapped_write(
                old(self).buffer@,
                old(self).position as int,
                data@,
            ),
            final(self).position == (old(self).position + data@.len()) % (
            LOG_BUFFER_SIZE as int),
    {
        if data.len() == 0 {
            return;
        }

        // Get current position and reserve space for the new data.
        let current_pos = self.position;
        let data_len = data.len();

        // Copy data to the buffer, wrapping around if necessary.
        let mut i: usize = 0;
        while i < data_len
            invariant
                i <= data_len,
                data_len == data@.len(),
                data_len <= usize::MAX - LOG_BUFFER_SIZE,
                current_pos < LOG_BUFFER_SIZE,
                self.position == current_pos,
                old(self).buffer@.len() == LOG_BUFFER_SIZE,
                self.buffer@.len() == LOG_BUFFER_SIZE,
                self.buffer@ == wrapped_write(
                    old(self).buffer@,
                    current_pos as int,
                    data@.take(i as int),
                ),
            decreases data_len - i,
        {
            let byte = data[i];
            let buf_pos = (current_pos + i) % LOG_BUFFER_SIZE;
            proof {
                lemma_wrapped_write_snoc(
                    old(self).buffer@,
                    current_pos as int,
                    data@.take(i as int),
                    byte,
                );
                assert(data@.take(i as int).push(byte) =~= data@.take(i as int + 1));
                lemma_wrapped_write_len(old(self).buffer@, current_pos as int, data@.take(i as int));
            }
            self.buffer.set(buf_pos, byte);
            i = i + 1;
        }

        proof {
            assert(data@.take(data_len as int) =~= data@);
            lemma_wrapped_write_len(old(self).buffer@, current_pos as int, data@);
        }

        // Update position.
        self.position = (current_pos + data_len) % LOG_BUFFER_SIZE;
    }

    /// Gets the current write position in the buffer.
    pub fn get_position(&self) -> (r: usize)
        ensures
            r == self.position,
    {
        self.position
    }

    /// Gets raw access to the buffer storage.
    pub fn get_raw_buffer(&self) -> (r: &Vec<u8>)
        ensures
            r@ == self.buffer@,
    {
        &self.buffer
    }

    /// Gets a copy of the current buffer contents, reconstructed in proper
    /// order: the byte at the current write position (the oldest) comes
    /// first.
    pub fn get_buffer(&self) -> (r: Vec<u8>)
        requires
            self.wf(),
        ensures
            r@.len() == LOG_BUFFER_SIZE,
            forall|i: int|
                0 <= i < LOG_BUFFER_SIZE ==> r@[i] == self.buffer@[(self.position + i) % (
                LOG_BUFFER_SIZE as int)],
    {
        // To present a coherent view, reconstruct the buffer in the proper
        // order.
        let mut result: Vec<u8> = Vec::new();
        let current_pos = self.position;
        let mut i: usize = 0;
        while i < LOG_BUFFER_SIZE
            invariant
                i <= LOG_BUFFER_SIZE,
                current_pos < LOG_BUFFER_SIZE,
                self.buffer@.len() == LOG_BUFFER_SIZE,
                result@.len() == i,
                forall|j: int|
                    0 <= j < i ==> result@[j] == self.buffer@[(current_pos + j) % (
                    LOG_BUFFER_SIZE as int)],
            decreases LOG_BUFFER_SIZE - i,
        {
            let src_pos = (current_pos + i) % LOG_BUFFER_SIZE;
            result.push(self.buffer[src_pos]);
            i = i + 1;
        }
        result
    }
}

} // verus!
