//! Text console output.
use vstd::prelude::*;
use crate::modes::{largest_mode, select_largest};
use crate::status::{Completion, Status, UefiResult, outcome, unit_outcome};

verus! {

/// The state of a text console.
#[derive(Clone, Copy, Debug, PartialEq, Eq, Structural)]
pub struct TextOutputMode {
    pub max_mode: i32,
    pub mode: i32,
    pub attribute: i32,
    pub cursor_x: i32,
    pub cursor_y: i32,
    pub cursor_visible: bool,
}

/// The UCS-2 code unit that the console is sent for a character: its code
/// point cut to sixteen bits.
pub open spec fn code_unit(c: char) -> u16 {
    (c as u32) as u16
}

/// The code unit of a line feed.
pub const LINE_FEED: u16 = 10;

/// The code unit of a carriage return.
pub const CARRIAGE_RETURN: u16 = 13;

/// The strings that printing `text` sends, one character each: each line
/// feed is followed by a carriage return, which the firmware does not add.
pub open spec fn console_calls(text: Seq<char>) -> Seq<Seq<u16>>
    decreases text.len(),
{
    if text.len() == 0 {
        Seq::empty()
    } else {
        let c = text.last();
        let before = console_calls(text.drop_last());
        if c == '\n' {
            before.push(seq![LINE_FEED]).push(seq![CARRIAGE_RETURN])
        } else {
            before.push(seq![code_unit(c)])
        }
    }
}

/// What a run of console calls amounts to: the first error, if a call
/// failed; else the last warning, if a call warned; else success.
pub open spec fn combined_status(statuses: Seq<Status>) -> Status
    decreases statuses.len(),
{
    if statuses.len() == 0 {
        Status::Success
    } else {
        let before = combined_status(statuses.drop_last());
        if before.spec_is_error() || statuses.last() == Status::Success {
            before
        } else {
            statuses.last()
        }
    }
}

/// What a run of calls amounts to is an error exactly when one of them
/// failed, and a plain success exactly when every one succeeded.
pub proof fn lemma_combined_status(statuses: Seq<Status>)
    ensures
        combined_status(statuses).spec_is_error()
            <==> exists|k: int| 0 <= k < statuses.len() && (#[trigger] statuses[k]).spec_is_error(),
        combined_status(statuses) == Status::Success
            <==> forall|k: int| 0 <= k < statuses.len() ==> (#[trigger] statuses[k]) == Status::Success,
    decreases statuses.len(),
{
    if statuses.len() > 0 {
        let init = statuses.drop_last();
        let last = statuses.len() - 1;
        lemma_combined_status(init);
        assert forall|k: int| 0 <= k < init.len() implies #[trigger] statuses[k] == init[k] by {}
        if exists|k: int| 0 <= k < statuses.len() && (#[trigger] statuses[k]).spec_is_error() {
            let k = choose|k: int| 0 <= k < statuses.len() && (#[trigger] statuses[k]).spec_is_error();
            if k < last {
                assert(init[k].spec_is_error());
            }
        }
        if combined_status(init).spec_is_error() {
            let k = choose|k: int| 0 <= k < init.len() && (#[trigger] init[k]).spec_is_error();
            assert(statuses[k].spec_is_error());
        }
        if statuses[last].spec_is_error() {
            assert(statuses.last().spec_is_error());
        }
        if forall|k: int| 0 <= k < statuses.len() ==> (#[trigger] statuses[k]) == Status::Success {
            assert(statuses[last] == Status::Success);
            assert forall|k: int| 0 <= k < init.len() implies (#[trigger] init[k]) == Status::Success by {
                assert(statuses[k] == Status::Success);
            }
        }
    }
}

/// One more call on the log: what the calls since `base` amount to takes in
/// its status.
proof fn lemma_log_step(base: Seq<Status>, before: Seq<Status>, st: Status, after: Seq<Status>)
    requires
        before.len() >= base.len(),
        before.take(base.len() as int) == base,
        after == before.push(st),
    ensures
        after.len() == before.len() + 1,
        after.take(base.len() as int) == base,
        combined_status(after.skip(base.len() as int)) == ({
            let prev = combined_status(before.skip(base.len() as int));
            if prev.spec_is_error() || st == Status::Success {
                prev
            } else {
                st
            }
        }),
{
    let tail = before.skip(base.len() as int);
    assert(after.skip(base.len() as int) =~= tail.push(st));
    assert(tail.push(st).drop_last() =~= tail);
    assert(after.take(base.len() as int) =~= before.take(base.len() as int));
}

/// The raw entries of a text output protocol.
///
/// The spec functions describe the answers of an implementation, which
/// defines them; their defaults name no particular value.
pub trait TextOutputTable: Sized {
    /// Every string sent to the console so far, in order, without its
    /// terminator.
    closed spec fn sent(&self) -> Seq<Seq<u16>> {
        arbitrary()
    }

    /// The status of each string sent, in order.
    closed spec fn output_statuses(&self) -> Seq<Status> {
        arbitrary()
    }

    /// What querying text mode `index` reports: status, columns, rows.
    closed spec fn query_response(&self, index: usize) -> (Status, usize, usize) {
        arbitrary()
    }

    /// What selecting text mode `index` reports.
    closed spec fn set_mode_response(&self, index: usize) -> Status {
        arbitrary()
    }

    /// The modes selected so far, in order.
    closed spec fn selected_modes(&self) -> Seq<usize> {
        arbitrary()
    }

    closed spec fn spec_mode(&self) -> TextOutputMode {
        arbitrary()
    }

    closed spec fn reset_response(&self, extended: bool) -> Status {
        arbitrary()
    }

    /// Whether the console can print every character of `text`.
    closed spec fn test_response(&self, text: Seq<u16>) -> Status {
        arbitrary()
    }

    closed spec fn attribute_response(&self, attribute: usize) -> Status {
        arbitrary()
    }

    closed spec fn clear_response(&self) -> Status {
        arbitrary()
    }

    closed spec fn cursor_response(&self, column: usize, row: usize) -> Status {
        arbitrary()
    }

    closed spec fn enable_cursor_response(&self, visible: bool) -> Status {
        arbitrary()
    }

    fn reset_raw(&mut self, extended: bool) -> (r: Status)
        ensures
            r == old(self).reset_response(extended),
    ;

    fn test_string_raw(&mut self, text: &Vec<u16>) -> (r: Status)
        ensures
            r == old(self).test_response(text@),
    ;

    fn set_attribute_raw(&mut self, attribute: usize) -> (r: Status)
        ensures
            r == old(self).attribute_response(attribute),
    ;

    fn clear_screen_raw(&mut self) -> (r: Status)
        ensures
            r == old(self).clear_response(),
    ;

    fn set_cursor_position_raw(&mut self, column: usize, row: usize) -> (r: Status)
        ensures
            r == old(self).cursor_response(column, row),
    ;

    fn enable_cursor_raw(&mut self, visible: bool) -> (r: Status)
        ensures
            r == old(self).enable_cursor_response(visible),
    ;

    fn output_string_raw(&mut self, text: &Vec<u16>) -> (r: Status)
        ensures
            final(self).sent() == old(self).sent().push(text@),
            final(self).output_statuses() == old(self).output_statuses().push(r),
            final(self).selected_modes() == old(self).selected_modes(),
            forall|i: usize| final(self).query_response(i) == old(self).query_response(i),
    ;

    fn query_mode_raw(&self, index: usize) -> (r: (Status, usize, usize))
        ensures
            r == self.query_response(index),
    ;

    fn set_mode_raw(&mut self, index: usize) -> (r: Status)
        ensures
            r == old(self).set_mode_response(index),
            final(self).sent() == old(self).sent(),
            final(self).selected_modes() == old(self).selected_modes().push(index),
    ;

    fn mode_raw(&self) -> (r: TextOutputMode)
        ensures
            r == self.spec_mode(),
    ;
}

/// A text console.
pub struct TextOutput<T> {
    pub table: T,
}

impl<T: TextOutputTable> TextOutput<T> {
    /// Prints `text` a character at a time, adding a carriage return after
    /// each line feed; every string is sent whatever the firmware answers.
    /// The outcome is the first error, if a string failed, else the last
    /// warning, else success.
    pub fn output_string(&mut self, text: &str) -> (r: UefiResult<()>)
        ensures
            final(self).table.sent() == old(self).table.sent() + console_calls(text@),
            ({
                let statuses = final(self).table.output_statuses().skip(old(self).table.output_statuses().len() as int);
                &&& final(self).table.output_statuses() == old(self).table.output_statuses() + statuses
                &&& statuses.len() == console_calls(text@).len()
                &&& r == unit_outcome(combined_status(statuses))
            }),
            final(self).table.selected_modes() == old(self).table.selected_modes(),
            forall|i: usize| final(self).table.query_response(i) == old(self).table.query_response(i),
    {
        let ghost sent0 = self.table.sent();
        let ghost statuses0 = self.table.output_statuses();
        let mut status = Status::Success;
        let n = text.unicode_len();
        let mut i: usize = 0;
        while i < n
            invariant
                n == text@.len(),
                0 <= i <= n,
                sent0 == old(self).table.sent(),
                statuses0 == old(self).table.output_statuses(),
                self.table.sent() == sent0 + console_calls(text@.take(i as int)),
                self.table.output_statuses().len() == statuses0.len() + console_calls(text@.take(i as int)).len(),
                self.table.output_statuses().take(statuses0.len() as int) == statuses0,
                status == combined_status(self.table.output_statuses().skip(statuses0.len() as int)),
                self.table.selected_modes() == old(self).table.selected_modes(),
                forall|j: usize| self.table.query_response(j) == old(self).table.query_response(j),
            decreases n - i,
        {
            let c = text.get_char(i);
            let unit = (c as u32) as u16;
            let mut single: Vec<u16> = Vec::new();
            single.push(unit);
            let ghost log0 = self.table.output_statuses();
            let st = self.table.output_string_raw(&single);
            if !status.is_error() && !st.is_success() {
                status = st;
            }
            proof {
                lemma_log_step(statuses0, log0, st, self.table.output_statuses());
            }
            if c == '\n' {
                let ghost log1 = self.table.output_statuses();
                let mut ret: Vec<u16> = Vec::new();
                ret.push(CARRIAGE_RETURN);
                let st2 = self.table.output_string_raw(&ret);
                if !status.is_error() && !st2.is_success() {
                    status = st2;
                }
                proof {
                    lemma_log_step(statuses0, log1, st2, self.table.output_statuses());
                }
            }
            proof {
                let prefix = text@.take(i + 1);
                assert(prefix.drop_last() =~= text@.take(i as int));
                assert(prefix.last() == c);
                assert(single@ =~= seq![code_unit(c)]);
                if c == '\n' {
                    assert(single@ =~= seq![LINE_FEED]);
                }
                assert(sent0 + console_calls(prefix) =~= sent0 + console_calls(text@.take(i as int)) + (if c == '\n' {
                    seq![seq![LINE_FEED], seq![CARRIAGE_RETURN]]
                } else {
                    seq![seq![code_unit(c)]]
                }));
            }
            i = i + 1;
        }
        proof {
            assert(text@.take(n as int) =~= text@);
            assert(self.table.output_statuses() =~= statuses0 + self.table.output_statuses().skip(statuses0.len() as int));
        }
        status.into_result()
    }

    /// The columns and rows of text mode `index`.
    pub fn query_mode(&self, index: usize) -> (r: UefiResult<(usize, usize)>)
        ensures
            ({
                let q = self.table.query_response(index);
                r == outcome(q.0, (q.1, q.2))
            }),
    {
        let (status, columns, rows) = self.table.query_mode_raw(index);
        status.into_with(|| -> (v: (usize, usize)) ensures v == (columns, rows) { (columns, rows) })
    }

    /// Selects text mode `index`.
    pub fn set_mode(&mut self, index: usize) -> (r: UefiResult<()>)
        ensures
            r == unit_outcome(old(self).table.set_mode_response(index)),
            final(self).table.selected_modes() == old(self).table.selected_modes().push(index),
            final(self).table.sent() == old(self).table.sent(),
    {
        self.table.set_mode_raw(index).into_result()
    }

    /// Resets the console.
    pub fn reset(&mut self, extended: bool) -> (r: UefiResult<()>)
        ensures
            r == unit_outcome(old(self).table.reset_response(extended)),
    {
        self.table.reset_raw(extended).into_result()
    }

    /// Whether the console can print every character of `text`, given in UCS-2.
    pub fn test_string(&mut self, text: &Vec<u16>) -> (r: bool)
        ensures
            r == (old(self).table.test_response(text@) == Status::Success),
    {
        self.table.test_string_raw(text) == Status::Success
    }

    /// Sets the colours of the text that follows.
    pub fn set_attribute(&mut self, attribute: usize) -> (r: UefiResult<()>)
        ensures
            r == unit_outcome(old(self).table.attribute_response(attribute)),
    {
        self.table.set_attribute_raw(attribute).into_result()
    }

    /// Clears the screen.
    pub fn clear_screen(&mut self) -> (r: UefiResult<()>)
        ensures
            r == unit_outcome(old(self).table.clear_response()),
    {
        self.table.clear_screen_raw().into_result()
    }

    /// Moves the cursor.
    pub fn set_cursor_position(&mut self, column: usize, row: usize) -> (r: UefiResult<()>)
        ensures
            r == unit_outcome(old(self).table.cursor_response(column, row)),
    {
        self.table.set_cursor_position_raw(column, row).into_result()
    }

    /// Shows or hides the cursor.
    pub fn enable_cursor(&mut self, visible: bool) -> (r: UefiResult<()>)
        ensures
            r == unit_outcome(old(self).table.enable_cursor_response(visible)),
    {
        self.table.enable_cursor_raw(visible).into_result()
    }

    /// The console's current state.
    pub fn mode(&self) -> (r: TextOutputMode)
        ensures
            r == self.table.spec_mode(),
    {
        self.table.mode_raw()
    }
}

/// What querying a mode tells the search for the largest: its size, where
/// the query plainly succeeded.
pub open spec fn usable_size(q: (Status, usize, usize)) -> Option<(usize, usize)> {
    if q.0 == Status::Success {
        Some((q.1, q.2))
    } else {
        None
    }
}

/// The sizes of the first `n` text modes, as the largest-mode search sees them.
pub open spec fn text_mode_sizes<T: TextOutputTable>(table: T, n: nat) -> Seq<Option<(usize, usize)>> {
    Seq::new(n, |i: int| usable_size(table.query_response(i as usize)))
}

/// The number of text modes that a console state announces.
pub open spec fn mode_count(mode: TextOutputMode) -> nat {
    if mode.max_mode < 0 {
        0
    } else {
        mode.max_mode as nat
    }
}

/// Selects the largest text mode: of the modes that query plainly, the last
/// one at least as wide and as tall as every one picked before it. Nothing is
/// selected where no mode queries plainly.
pub fn set_max_text_mode<T: TextOutputTable>(output: &mut TextOutput<T>) -> (r: ())
    ensures
        ({
            let sizes = text_mode_sizes(old(output).table, mode_count(old(output).table.spec_mode()));
            match largest_mode(sizes) {
                Some(i) => final(output).table.selected_modes() == old(output).table.selected_modes().push(i),
                None => final(output).table.selected_modes() == old(output).table.selected_modes(),
            }
        }),
        final(output).table.sent() == old(output).table.sent(),
{
    let max_mode = output.mode().max_mode;
    let count: usize = if max_mode < 0 {
        0
    } else {
        max_mode as usize
    };
    let ghost expected = text_mode_sizes(output.table, count as nat);
    let mut sizes: Vec<Option<(usize, usize)>> = Vec::new();
    let mut i: usize = 0;
    while i < count
        invariant
            0 <= i <= count,
            sizes@ =~= expected.take(i as int),
            expected == text_mode_sizes(output.table, count as nat),
        decreases count - i,
    {
        let size = match output.query_mode(i) {
            Ok(Completion::Success(size)) => Some(size),
            _ => None,
        };
        sizes.push(size);
        i = i + 1;
    }
    proof {
        assert(sizes@ =~= expected);
    }
    match select_largest(&sizes) {
        Some(best) => {
            let _ = output.set_mode(best);
        },
        None => {},
    }
}

} // verus!
