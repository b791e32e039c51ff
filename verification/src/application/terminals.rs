//! Terminal channels: the size rule for opening and resizing a pty, and the
//! book of open terminals that input and resizes are routed by.

use vstd::prelude::*;

use super::connections::{is_uuid_text, new_id};
use super::ports::TransportError;
use super::sessions::SessionError;
use crate::text::{decimal, push_decimal};

verus! {

/// Largest accepted number of columns or rows.
pub const MAX_DIMENSION: u32 = 1000;

/// Error of the terminal use cases.
#[derive(Debug)]
pub enum TerminalError {
    /// The terminal does not exist (it may be closed).
    NotFound,
    /// The session failed (missing or disconnected).
    Session(SessionError),
    /// The transport failed.
    Transport(TransportError),
    /// An argument was refused (a size out of range).
    InvalidArgument(String),
}

/// The display text of a terminal error.
pub open spec fn terminal_error_text(e: TerminalError) -> Seq<char> {
    match e {
        TerminalError::NotFound => "终端不存在或已关闭"@,
        TerminalError::Session(s) => super::sessions::book::session_error_text(s),
        TerminalError::Transport(t) => super::ports::transport_error_text(t),
        TerminalError::InvalidArgument(m) => m@,
    }
}

impl TerminalError {
    /// The display text.
    pub fn message(&self) -> (m: String)
        ensures
            m@ == terminal_error_text(*self),
    {
        match self {
            TerminalError::NotFound => String::from_str("终端不存在或已关闭"),
            TerminalError::Session(s) => s.message(),
            TerminalError::Transport(t) => t.message(),
            TerminalError::InvalidArgument(m) => m.clone(),
        }
    }
}

/// A size of `cols` × `rows` is accepted.
pub open spec fn dimension_ok(cols: u32, rows: u32) -> bool {
    0 < cols <= MAX_DIMENSION && 0 < rows <= MAX_DIMENSION
}

/// Checks a terminal size: both sides between 1 and `MAX_DIMENSION`; otherwise
/// an invalid argument naming the size as `colsxrows`.
pub fn ensure_dimension(cols: u32, rows: u32) -> (r: Result<(), TerminalError>)
    ensures
        dimension_ok(cols, rows) ==> r is Ok,
        !dimension_ok(cols, rows) ==> (r matches Err(TerminalError::InvalidArgument(m)) && m@
            == "终端尺寸非法: "@ + decimal(cols as nat) + "x"@ + decimal(rows as nat)),
{
    if cols == 0 || rows == 0 || cols > MAX_DIMENSION || rows > MAX_DIMENSION {
        let mut m = String::from_str("终端尺寸非法: ");
        push_decimal(&mut m, cols as u64);
        m.append("x");
        push_decimal(&mut m, rows as u64);
        return Err(TerminalError::InvalidArgument(m));
    }
    Ok(())
}

/// The open terminals, by identity.
pub struct TerminalBook {
    open: Vec<String>,
}

impl View for TerminalBook {
    type V = Seq<Seq<char>>;

    closed spec fn view(&self) -> Seq<Seq<char>> {
        Seq::new(self.open@.len(), |i: int| self.open@[i]@)
    }
}

/// `s` without the entries equal to `x`.
pub open spec fn without(s: Seq<Seq<char>>, x: Seq<char>) -> Seq<Seq<char>> {
    s.filter(|y: Seq<char>| y != x)
}

proof fn lemma_without_push(s: Seq<Seq<char>>, x: Seq<char>, y: Seq<char>)
    ensures
        without(s.push(y), x) == if y == x {
            without(s, x)
        } else {
            without(s, x).push(y)
        },
{
    reveal(Seq::filter);
    assert(s.push(y).drop_last() =~= s);
}

/// Law: a closed terminal is gone. Once terminal `id` is closed no open
/// terminal has its identity, so input and resizes for it are refused, and
/// closing it again changes nothing.
pub proof fn law_closed_terminal_is_gone(open: Seq<Seq<char>>, id: Seq<char>)
    ensures
        !without(open, id).contains(id),
        without(without(open, id), id) == without(open, id),
    decreases open.len(),
{
    if open.len() > 0 {
        let rest = open.drop_last();
        law_closed_terminal_is_gone(rest, id);
        assert(rest.push(open.last()) =~= open);
        lemma_without_push(rest, id, open.last());
        if open.last() != id {
            lemma_without_push(without(rest, id), id, open.last());
            assert forall|j: int| 0 <= j < without(open, id).len() implies without(open, id)[j] != id by {
                if j < without(rest, id).len() {
                    assert(without(open, id)[j] == without(rest, id)[j]);
                }
            }
        }
    } else {
        reveal(Seq::filter);
    }
}

impl TerminalBook {
    /// No terminal open.
    pub fn new() -> (b: Self)
        ensures
            b@ == Seq::<Seq<char>>::empty(),
    {
        let b = TerminalBook { open: Vec::new() };
        assert(b@ =~= Seq::<Seq<char>>::empty());
        b
    }

    /// Checks the size of a terminal about to be opened and gives it a fresh
    /// identity; it counts as open once `register`ed.
    pub fn mint(&self, cols: u32, rows: u32) -> (r: Result<String, TerminalError>)
        ensures
            dimension_ok(cols, rows) ==> (r matches Ok(id) && is_uuid_text(id@)),
            !dimension_ok(cols, rows) ==> (r matches Err(TerminalError::InvalidArgument(m)) && m@
                == "终端尺寸非法: "@ + decimal(cols as nat) + "x"@ + decimal(rows as nat)),
    {
        match ensure_dimension(cols, rows) {
            Ok(()) => Ok(new_id()),
            Err(e) => Err(e),
        }
    }

    /// Whether terminal `id` is open.
    pub fn is_open(&self, id: &str) -> (b: bool)
        ensures
            b == self@.contains(id@),
    {
        let mut i: usize = 0;
        while i < self.open.len()
            invariant
                i <= self.open@.len(),
                forall|j: int| 0 <= j < i ==> self@[j] != id@,
            decreases self.open@.len() - i,
        {
            if self.open[i] == String::from_str(id) {
                assert(self@[i as int] == id@);
                return true;
            }
            i = i + 1;
        }
        false
    }

    /// Records terminal `id` as open (once).
    pub fn register(&mut self, id: String)
        ensures
            final(self)@ == if old(self)@.contains(id@) {
                old(self)@
            } else {
                old(self)@.push(id@)
            },
    {
        if !self.is_open(id.as_str()) {
            let ghost before = self@;
            self.open.push(id);
            assert(self@ =~= before.push(self.open@[self.open@.len() - 1]@));
        }
    }

    /// Routes input of `len` bytes to terminal `id`: nothing to send is a
    /// no-op (false); input for a terminal that is not open is refused.
    pub fn route_write(&self, id: &str, len: usize) -> (r: Result<bool, TerminalError>)
        ensures
            len == 0 ==> r == Ok::<bool, TerminalError>(false),
            len > 0 && self@.contains(id@) ==> r == Ok::<bool, TerminalError>(true),
            len > 0 && !self@.contains(id@) ==> r matches Err(TerminalError::NotFound),
    {
        if len == 0 {
            Ok(false)
        } else if self.is_open(id) {
            Ok(true)
        } else {
            Err(TerminalError::NotFound)
        }
    }

    /// Routes a resize of terminal `id`: the size is checked first, then that
    /// the terminal is open.
    pub fn route_resize(&self, id: &str, cols: u32, rows: u32) -> (r: Result<(), TerminalError>)
        ensures
            !dimension_ok(cols, rows) ==> (r matches Err(TerminalError::InvalidArgument(m)) && m@
                == "终端尺寸非法: "@ + decimal(cols as nat) + "x"@ + decimal(rows as nat)),
            dimension_ok(cols, rows) && self@.contains(id@) ==> r is Ok,
            dimension_ok(cols, rows) && !self@.contains(id@) ==> r matches Err(TerminalError::NotFound),
    {
        ensure_dimension(cols, rows)?;
        if self.is_open(id) {
            Ok(())
        } else {
            Err(TerminalError::NotFound)
        }
    }

    /// Closes terminal `id`; says whether it was open (closing twice is fine).
    pub fn close(&mut self, id: &str) -> (was_open: bool)
        ensures
            was_open == old(self)@.contains(id@),
            final(self)@ == without(old(self)@, id@),
    {
        let ghost start = self@;
        let mut kept: Vec<String> = Vec::new();
        let mut found = false;
        let mut i: usize = 0;
        let key = String::from_str(id);
        while i < self.open.len()
            invariant
                i <= self.open@.len(),
                self@ == start,
                key@ == id@,
                Seq::new(kept@.len(), |j: int| kept@[j]@) == without(start.subrange(0, i as int), id@),
                found <==> exists|j: int| 0 <= j < i && start[j] == id@,
            decreases self.open@.len() - i,
        {
            let ghost prefix = start.subrange(0, i as int);
            assert(start.subrange(0, i + 1) =~= prefix.push(start[i as int]));
            if self.open[i] == key {
                found = true;
                proof {
                    assert(start.subrange(0, i + 1)[i as int] == id@);
                    lemma_without_push(prefix, id@, id@);
                }
            } else {
                let ghost kv = Seq::new(kept@.len(), |j: int| kept@[j]@);
                kept.push(self.open[i].clone());
                proof {
                    assert(start[i as int] == self.open@[i as int]@);
                    lemma_without_push(prefix, id@, start[i as int]);
                    assert(Seq::new(kept@.len(), |j: int| kept@[j]@) =~= kv.push(start[i as int]));
                }
            }
            i = i + 1;
        }
        proof {
            assert(start.subrange(0, start.len() as int) =~= start);
            if found {
                let j = choose|j: int| 0 <= j < start.len() && start[j] == id@;
                assert(start.contains(id@));
            }
        }
        self.open = kept;
        found
    }
}

} // verus!
