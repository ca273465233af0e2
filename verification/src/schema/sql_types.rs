use vstd::prelude::*;

verus! {

/// The database type `language` of a submission's language column.
#[derive(Debug, Clone, Copy, PartialEq, Eq)]
pub struct Language;

/// The database type `room_kind` of a contest room's kind column.
#[derive(Debug, Clone, Copy, PartialEq, Eq)]
pub struct RoomKind;

/// The database type `status` of a submission detail's status column.
#[derive(Debug, Clone, Copy, PartialEq, Eq)]
pub struct Status;

} // verus!
