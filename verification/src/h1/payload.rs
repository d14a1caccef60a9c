//! The channel that carries one request body from the decoder to the
//! handler.
//!
//! The dispatcher feeds it, the reader of the body takes from it, and the
//! channel tells the dispatcher when the reader has enough for now. How the
//! two sides share the channel and wake each other is their driver's
//! business.

use crate::error::PayloadError;
use crate::h1::message::PayloadStatus;
use bytes::Bytes;
use std::collections::VecDeque;
use vstd::prelude::*;

verus! {

#[verifier::external_type_specification]
#[verifier::external_body]
pub struct ExBytes(Bytes);

/// The bytes of a piece of a body.
pub uninterp spec fn chunk_bytes(chunk: Bytes) -> Seq<u8>;

/// `Bytes::len`: the number of bytes of the piece.
#[verifier::external_body]
fn chunk_len(chunk: &Bytes) -> (n: usize)
    ensures
        n == chunk_bytes(*chunk).len(),
{
    chunk.len()
}

/// The reader has enough for now once this many bytes wait for it.
pub const MAX_PAYLOAD_SIZE: usize = 32_768;

/// How many bytes the pieces `items` hold together.
pub open spec fn total_len(items: Seq<Bytes>) -> nat
    decreases items.len(),
{
    if items.len() == 0 {
        0
    } else {
        total_len(items.drop_last()) + chunk_bytes(items.last()).len()
    }
}

/// What the reader of a body gets when it asks for more.
#[derive(Debug, PartialEq)]
pub enum PayloadItem {
    /// The next piece.
    Data(Bytes),
    /// The body has failed.
    Failed(PayloadError),
    /// The body is complete.
    Eof,
    /// Nothing now.
    Pending,
}

/// A channel, as the contracts see it.
pub ghost struct PayloadView {
    /// The pieces that wait for the reader, oldest first.
    pub items: Seq<Bytes>,
    /// Whether the body is complete once they are read.
    pub eof: bool,
    /// The failure that the reader meets once they are read.
    pub err: Option<PayloadError>,
    /// Whether the reader wants more.
    pub need_read: bool,
}

/// The channel that carries one request body.
pub struct PayloadChannel {
    len: usize,
    eof: bool,
    err: Option<PayloadError>,
    need_read: bool,
    items: VecDeque<Bytes>,
}

impl View for PayloadChannel {
    type V = PayloadView;

    closed spec fn view(&self) -> PayloadView {
        PayloadView {
            items: self.items@,
            eof: self.eof,
            err: self.err,
            need_read: self.need_read,
        }
    }
}

/// Taking away the first piece takes away its bytes.
proof fn lemma_total_len_skip(items: Seq<Bytes>)
    requires
        items.len() > 0,
    ensures
        total_len(items) == chunk_bytes(items[0]).len() + total_len(
            items.subrange(1, items.len() as int),
        ),
    decreases items.len(),
{
    let rest = items.subrange(1, items.len() as int);
    if items.len() == 1 {
        assert(total_len(items.drop_last()) == 0);
        assert(total_len(rest) == 0);
        assert(items.last() == items[0]);
    } else {
        lemma_total_len_skip(items.drop_last());
        assert(items.drop_last().subrange(1, items.len() - 1) =~= rest.drop_last());
        assert(rest.last() == items.last());
        assert(items.drop_last()[0] == items[0]);
        assert(total_len(rest) == total_len(rest.drop_last()) + chunk_bytes(rest.last()).len());
    }
}

impl PayloadChannel {
    /// How many bytes wait for the reader.
    pub closed spec fn buffered(&self) -> nat {
        self.len as nat
    }

    /// The invariant of a channel: it knows how many bytes it holds.
    pub closed spec fn wf(&self) -> bool {
        self.len == total_len(self.items@)
    }

    /// What the channel counts is what its pieces hold.
    pub proof fn lemma_buffered(&self)
        requires
            self.wf(),
        ensures
            self.buffered() == total_len(self@.items),
    {
    }

    /// A channel that holds nothing, whose reader wants more. With `eof`
    /// the body is complete from the start.
    pub fn new(eof: bool) -> (channel: PayloadChannel)
        ensures
            channel.wf(),
            channel@ == (PayloadView { items: Seq::empty(), eof, err: None, need_read: true }),
    {
        PayloadChannel { len: 0, eof, err: None, need_read: true, items: VecDeque::new() }
    }

    /// Lets the reader meet `err` once it has read what waits.
    pub fn set_error(&mut self, err: PayloadError)
        requires
            old(self).wf(),
        ensures
            final(self).wf(),
            final(self)@ == (PayloadView { err: Some(err), ..old(self)@ }),
    {
        self.err = Some(err);
    }

    /// Tells that the body is complete once the reader has read what waits.
    pub fn feed_eof(&mut self)
        requires
            old(self).wf(),
        ensures
            final(self).wf(),
            final(self)@ == (PayloadView { eof: true, ..old(self)@ }),
    {
        self.eof = true;
    }

    /// Whether another piece can be counted in.
    pub fn has_room_for(&self, data: &Bytes) -> (fits: bool)
        requires
            self.wf(),
        ensures
            fits == (self.buffered() + chunk_bytes(*data).len() <= usize::MAX),
    {
        chunk_len(data) <= usize::MAX - self.len
    }

    /// Adds a piece behind those that wait. From then on the reader wants
    /// more only if fewer than `MAX_PAYLOAD_SIZE` bytes wait for it.
    pub fn feed_data(&mut self, data: Bytes)
        requires
            old(self).wf(),
            old(self).buffered() + chunk_bytes(data).len() <= usize::MAX,
        ensures
            final(self).wf(),
            final(self)@ == (PayloadView {
                items: old(self)@.items.push(data),
                need_read: total_len(old(self)@.items.push(data)) < MAX_PAYLOAD_SIZE,
                ..old(self)@
            }),
    {
        proof {
            assert(self.items@.push(data).drop_last() =~= self.items@);
        }
        self.len = self.len + chunk_len(&data);
        self.items.push_back(data);
        self.need_read = self.len < MAX_PAYLOAD_SIZE;
    }

    /// What the dispatcher is to do about reading: go on if the reader
    /// wants more, pause if it does not.
    pub fn need_read(&self) -> (status: PayloadStatus)
        ensures
            status == if self@.need_read {
                PayloadStatus::Read
            } else {
                PayloadStatus::Pause
            },
    {
        if self.need_read {
            PayloadStatus::Read
        } else {
            PayloadStatus::Pause
        }
    }

    /// Whether the body is complete once the reader has read what waits.
    pub fn is_eof(&self) -> (eof: bool)
        ensures
            eof == self@.eof,
    {
        self.eof
    }

    /// How many bytes wait for the reader.
    pub fn len(&self) -> (n: usize)
        ensures
            n == self.buffered(),
    {
        self.len
    }

    /// Gives the reader what is next: the oldest piece that waits; if none
    /// does, the failure, which is then forgotten; if there is none, the end
    /// of the body; and else nothing, noting that the reader wants more.
    /// After a piece the reader wants more only if fewer than
    /// `MAX_PAYLOAD_SIZE` bytes still wait for it.
    pub fn readany(&mut self) -> (item: PayloadItem)
        requires
            old(self).wf(),
        ensures
            final(self).wf(),
            if old(self)@.items.len() > 0 {
                let rest = old(self)@.items.subrange(1, old(self)@.items.len() as int);
                &&& item == PayloadItem::Data(old(self)@.items[0])
                &&& final(self)@ == (PayloadView {
                    items: rest,
                    need_read: total_len(rest) < MAX_PAYLOAD_SIZE,
                    ..old(self)@
                })
            } else if old(self)@.err is Some {
                &&& item == PayloadItem::Failed(old(self)@.err.unwrap())
                &&& final(self)@ == (PayloadView { err: None, ..old(self)@ })
            } else if old(self)@.eof {
                &&& item == PayloadItem::Eof
                &&& final(self)@ == old(self)@
            } else {
                &&& item == PayloadItem::Pending
                &&& final(self)@ == (PayloadView { need_read: true, ..old(self)@ })
            },
    {
        proof {
            if self.items@.len() > 0 {
                lemma_total_len_skip(self.items@);
            }
        }
        match self.items.pop_front() {
            Some(data) => {
                self.len = self.len - chunk_len(&data);
                self.need_read = self.len < MAX_PAYLOAD_SIZE;
                PayloadItem::Data(data)
            },
            None => {
                match self.err {
                    Some(err) => {
                        self.err = None;
                        PayloadItem::Failed(err)
                    },
                    None => {
                        if self.eof {
                            PayloadItem::Eof
                        } else {
                            self.need_read = true;
                            PayloadItem::Pending
                        }
                    },
                }
            },
        }
    }
}

} // verus!
