//! Text console input.
use vstd::prelude::*;
use crate::status::{Status, UefiResult, unit_outcome};

verus! {

/// A key stroke: a scan code for keys without a character, else the
/// character.
#[derive(Clone, Copy, Debug, PartialEq, Eq, Structural)]
pub struct TextInputKey {
    pub scan_code: u16,
    pub unicode_char: u16,
}

impl Default for TextInputKey {
    fn default() -> (r: Self)
        ensures
            r == (TextInputKey { scan_code: 0, unicode_char: 0 }),
    {
        TextInputKey { scan_code: 0, unicode_char: 0 }
    }
}

/// The raw entries of a text input protocol.
///
/// The spec functions describe the answers of an implementation, which
/// defines them; their defaults name no particular value.
pub trait TextInputTable: Sized {
    closed spec fn reset_response(&self, extended: bool) -> Status {
        arbitrary()
    }

    /// What reading the next key stroke reports: the status and the key.
    closed spec fn key_response(&self) -> (Status, TextInputKey) {
        arbitrary()
    }

    fn reset_raw(&mut self, extended: bool) -> (r: Status)
        ensures
            r == old(self).reset_response(extended),
    ;

    fn read_key_stroke_raw(&mut self) -> (r: (Status, TextInputKey))
        ensures
            r == old(self).key_response(),
    ;
}

/// A text input.
pub struct TextInput<T> {
    pub table: T,
}

impl<T: TextInputTable> TextInput<T> {
    /// Resets the input device.
    pub fn reset(&mut self, extended: bool) -> (r: UefiResult<()>)
        ensures
            r == unit_outcome(old(self).table.reset_response(extended)),
    {
        self.table.reset_raw(extended).into_result()
    }

    /// The next key stroke; a warning is dropped, an error returned.
    pub fn read_key_stroke(&mut self) -> (r: Result<TextInputKey, Status>)
        ensures
            ({
                let (s, key) = old(self).table.key_response();
                r == if s.spec_is_error() {
                    Err::<TextInputKey, Status>(s)
                } else {
                    Ok(key)
                }
            }),
    {
        let (status, key) = self.table.read_key_stroke_raw();
        if status.is_error() {
            return Err(status);
        }
        Ok(key)
    }
}

} // verus!
