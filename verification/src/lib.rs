//! Stable event tagging, encoding, and authenticated emission.
//!
//! A program running in a sandboxed, deterministic execution environment can
//! make its significant events visible to outside observers in two ways: an
//! ephemeral, size-limited log channel, and a durable "authenticated" channel
//! that records a nested self-directed call in transaction metadata. This
//! crate holds the protocol underneath both channels:
//!
//! * [`discriminator`] gives every event type a stable 8-byte tag, derived
//!   from a one-way hash of the type's name, and gives the self-call envelope
//!   its own reserved tag from a distinct preimage namespace.
//! * [`codec`] lays a tag and an opaque serialized payload out as the byte
//!   record that both channels carry, and splits such a record back apart.
//! * [`authority`] derives the program's event authority: a deterministic
//!   address, outside the valid-key space, that only the owning program can
//!   make sign, and validates the accounts a caller presents against it.
//! * [`emitter`] builds the record or the self-call envelope for an emission,
//!   rejecting mismatched accounts, and models how an execution records the
//!   results of both channels in order.

pub mod authority;
pub mod bytes;
pub mod codec;
pub mod digest;
pub mod discriminator;
pub mod emitter;
