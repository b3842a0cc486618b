use vstd::prelude::*;
use vstd::layout::align_of;
use crate::layout::{buf_layout_error, buf_layout_ok, check_buf_layout, BufError};
use crate::win32::{hresult_from_win32, is_insufficient_buffer, ERROR_INSUFFICIENT_BUFFER};

verus! {

/// Where a query of token information of type `T` stands.
#[derive(Clone, Copy, Debug, PartialEq, Eq, Structural)]
pub enum InfoStage {
    /// The size of the information is being asked for.
    AwaitingSize,
    /// The information is being written into a buffer of `allocated`
    /// bytes.
    AwaitingFill { allocated: usize },
}

/// What a call of `GetTokenInformation` reported.
#[derive(Clone, Copy, Debug, PartialEq, Eq, Structural)]
pub struct InfoReply {
    /// The `HRESULT` code of the call's error, if it failed.
    pub error: Option<i32>,
    /// The size in bytes that the call reported the information to need.
    pub needed: u32,
}

/// Why a query of token information is abandoned.
#[derive(Clone, Copy, Debug, PartialEq, Eq, Structural)]
pub enum InfoFault {
    /// The size query did not fail for want of buffer space.
    NotInsufficientBuffer,
    /// No buffer holding a `T` can be made with the size reported.
    Layout(BufError),
}

/// What the caller of a token information query is to do next.
#[derive(Clone, Copy, Debug, PartialEq, Eq, Structural)]
pub enum InfoAction {
    /// Make a buffer of `size` bytes, aligned as `T` is, holding a default
    /// `T`, and call again with it.
    Fill { size: usize },
    /// The query is abandoned.
    Abandon { fault: InfoFault },
    /// The filling call failed: its error is the query's.
    CallFailed,
    /// The filling call reported another size than the buffer's: the query
    /// fails with the thread's last error.
    SizeChanged,
    /// The buffer holds the information.
    Deliver,
}

/// The size query failed as it is meant to: for want of buffer space.
pub open spec fn size_query_answered(reply: InfoReply) -> bool {
    reply.error == Some(hresult_from_win32(ERROR_INSUFFICIENT_BUFFER) as i32)
}

/// The filling call succeeded and reported the size of the buffer it was
/// given.
pub open spec fn fill_answered(allocated: usize, reply: InfoReply) -> bool {
    reply.error is None && reply.needed as usize == allocated
}

/// The next stage and action of a query of token information of type `T`.
/// After the size query, a buffer of the reported size is asked for where
/// the query failed for want of buffer space and that size holds a `T` at
/// the alignment of `T`; the query is abandoned otherwise, for the first of
/// these that fails. After the filling call, the information is delivered
/// where the call succeeded reporting the buffer's size; a failed call is
/// the query's failure, and a different size fails with the last error.
pub open spec fn info_next<T>(stage: InfoStage, reply: InfoReply) -> (Option<InfoStage>, InfoAction) {
    match stage {
        InfoStage::AwaitingSize => if !size_query_answered(reply) {
            (None, InfoAction::Abandon { fault: InfoFault::NotInsufficientBuffer })
        } else if let Some(e) = buf_layout_error::<T>(reply.needed as usize, align_of::<T>() as usize) {
            (None, InfoAction::Abandon { fault: InfoFault::Layout(e) })
        } else {
            (
                Some(InfoStage::AwaitingFill { allocated: reply.needed as usize }),
                InfoAction::Fill { size: reply.needed as usize },
            )
        },
        InfoStage::AwaitingFill { allocated } => (
            None,
            if fill_answered(allocated, reply) {
                InfoAction::Deliver
            } else if reply.error is Some {
                InfoAction::CallFailed
            } else {
                InfoAction::SizeChanged
            },
        ),
    }
}

/// One step of a query of token information of type `T`: the first call
/// asks for the size and must fail for want of buffer space; the buffer is
/// then made with that size, aligned as `T` is, and the second call fills
/// it, reporting the same size. Gives the next stage, if the query goes on,
/// and what to do.
pub fn info_step<T>(stage: InfoStage, reply: InfoReply) -> (r: (Option<InfoStage>, InfoAction))
    ensures
        r == info_next::<T>(stage, reply),
{
    match stage {
        InfoStage::AwaitingSize => {
            let insufficient: bool = match reply.error {
                Some(code) => is_insufficient_buffer(code),
                None => false,
            };
            if insufficient {
                let size: usize = reply.needed as usize;
                match check_buf_layout::<T>(size, core::mem::align_of::<T>()) {
                    Ok(_) => (Some(InfoStage::AwaitingFill { allocated: size }), InfoAction::Fill { size }),
                    Err(e) => (None, InfoAction::Abandon { fault: InfoFault::Layout(e) }),
                }
            } else {
                (None, InfoAction::Abandon { fault: InfoFault::NotInsufficientBuffer })
            }
        },
        InfoStage::AwaitingFill { allocated } => {
            if reply.error.is_some() {
                (None, InfoAction::CallFailed)
            } else if reply.needed as usize != allocated {
                (None, InfoAction::SizeChanged)
            } else {
                (None, InfoAction::Deliver)
            }
        },
    }
}

/// What each reply leads to. The size query goes on exactly when it failed
/// with the `HRESULT` of "insufficient buffer" (0x8007007A) and the size it
/// reported holds a `T` at the alignment of `T`, and then asks for a buffer
/// of exactly that size; after the filling call, a failed call is the
/// query's failure, a success reporting the buffer's size delivers, and a
/// success reporting any other size fails with the last error.
pub proof fn lemma_info_replies<T>(reply: InfoReply, allocated: usize)
    ensures
        size_query_answered(reply) <==> reply.error == Some(0x8007_007Au32 as i32),
        info_next::<T>(InfoStage::AwaitingSize, reply).1 is Fill <==> {
            &&& reply.error == Some(0x8007_007Au32 as i32)
            &&& buf_layout_ok::<T>(reply.needed as usize, align_of::<T>() as usize)
        },
        info_next::<T>(InfoStage::AwaitingSize, reply).1 matches InfoAction::Fill { size }
            ==> size == reply.needed,
        reply.error != Some(0x8007_007Au32 as i32) ==> info_next::<T>(InfoStage::AwaitingSize, reply)
            == (None::<InfoStage>, InfoAction::Abandon { fault: InfoFault::NotInsufficientBuffer }),
        info_next::<T>(InfoStage::AwaitingFill { allocated }, reply).0 is None,
        info_next::<T>(InfoStage::AwaitingFill { allocated }, reply).1 is CallFailed <==> reply.error is Some,
        info_next::<T>(InfoStage::AwaitingFill { allocated }, reply).1 is Deliver <==> (reply.error is None
            && reply.needed == allocated),
        info_next::<T>(InfoStage::AwaitingFill { allocated }, reply).1 is SizeChanged <==> (
        reply.error is None && reply.needed != allocated),
{
    assert(hresult_from_win32(ERROR_INSUFFICIENT_BUFFER) as i32 == 0x8007_007Au32 as i32) by (bit_vector);
}

/// A buffer that a query asks for can be made: its size holds a `T` and is
/// a valid layout at the alignment of `T`.
pub proof fn lemma_fill_size_fits<T>(stage: InfoStage, reply: InfoReply)
    ensures
        info_next::<T>(stage, reply).1 matches InfoAction::Fill { size } ==> {
            &&& buf_layout_ok::<T>(size, align_of::<T>() as usize)
            &&& info_next::<T>(stage, reply).0 == Some(InfoStage::AwaitingFill { allocated: size })
        },
{
}

/// A query delivers the information exactly when the size query failed for
/// want of buffer space, a buffer holding a `T` can be made with the size
/// it reported, and the filling call succeeded, reporting the same size.
pub proof fn lemma_query_delivers<T>(first: InfoReply, second: InfoReply)
    ensures
        (info_next::<T>(InfoStage::AwaitingSize, first).0 matches Some(s)
            && info_next::<T>(s, second).1 is Deliver) <==> {
            &&& size_query_answered(first)
            &&& buf_layout_ok::<T>(first.needed as usize, align_of::<T>() as usize)
            &&& second.error is None
            &&& second.needed == first.needed
        },
{
}

} // verus!
