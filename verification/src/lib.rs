//! Values held with the checked layout (size and alignment, chosen by the
//! caller) of the buffer they are to be handed to the system in, the layout
//! rules that govern such buffers, and the decisions of the Win32 security
//! queries that fill them (token information, security identifiers and
//! account lookup, error codes and handles). The buffers' memory itself is
//! allocated by the caller that makes the system calls.
pub mod layout;
pub mod buf;
pub mod var_buf;
pub mod aligned_buffer;
pub mod win32;
pub mod sid;
pub mod token;
