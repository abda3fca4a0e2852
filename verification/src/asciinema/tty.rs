//! Terminal sizes, and terminals whose size can be asked.
use vstd::prelude::*;

verus! {

/// A terminal size: columns, then rows.
#[derive(Clone, Copy, Debug, PartialEq, Eq, Structural)]
pub struct TtySize(pub u16, pub u16);

impl Default for TtySize {
    /// 80 columns by 24 rows.
    fn default() -> (r: Self)
        ensures
            r == TtySize(80, 24),
    {
        TtySize(80, 24)
    }
}

impl From<(u16, u16)> for TtySize {
    fn from(winsize: (u16, u16)) -> (r: Self) {
        TtySize(winsize.0, winsize.1)
    }
}

impl vstd::std_specs::convert::FromSpecImpl<(u16, u16)> for TtySize {
    open spec fn obeys_from_spec() -> bool {
        true
    }

    open spec fn from_spec(winsize: (u16, u16)) -> TtySize {
        TtySize(winsize.0, winsize.1)
    }
}

impl From<(usize, usize)> for TtySize {
    /// Each dimension is cut to 16 bits (`as u16`).
    fn from(size: (usize, usize)) -> (r: Self) {
        TtySize(size.0 as u16, size.1 as u16)
    }
}

impl vstd::std_specs::convert::FromSpecImpl<(usize, usize)> for TtySize {
    open spec fn obeys_from_spec() -> bool {
        true
    }

    open spec fn from_spec(size: (usize, usize)) -> TtySize {
        TtySize(size.0 as u16, size.1 as u16)
    }
}

impl From<TtySize> for (u16, u16) {
    fn from(tty_size: TtySize) -> (r: Self) {
        (tty_size.0, tty_size.1)
    }
}

impl vstd::std_specs::convert::FromSpecImpl<TtySize> for (u16, u16) {
    open spec fn obeys_from_spec() -> bool {
        true
    }

    open spec fn from_spec(tty_size: TtySize) -> (u16, u16) {
        (tty_size.0, tty_size.1)
    }
}

/// A terminal whose size can be asked.
pub trait Tty {
    /// The size the terminal reports.
    spec fn reported_size(&self) -> (u16, u16);

    /// The terminal's size: columns, then rows.
    fn get_size(&self) -> (r: (u16, u16))
        ensures
            r == self.reported_size(),
    ;
}

/// A terminal with nothing behind it; it reports the usual 80 by 24.
pub struct NullTty;

impl Tty for NullTty {
    open spec fn reported_size(&self) -> (u16, u16) {
        (80, 24)
    }

    fn get_size(&self) -> (r: (u16, u16)) {
        (80, 24)
    }
}

/// A terminal whose columns and/or rows are fixed, whatever the inner terminal
/// reports.
pub struct FixedSizeTty<T> {
    inner: T,
    cols: Option<u16>,
    rows: Option<u16>,
}

impl<T: Tty> FixedSizeTty<T> {
    pub closed spec fn inner(&self) -> T {
        self.inner
    }

    pub closed spec fn cols(&self) -> Option<u16> {
        self.cols
    }

    pub closed spec fn rows(&self) -> Option<u16> {
        self.rows
    }

    /// `inner` with the given columns and rows, where given.
    pub fn new(inner: T, cols: Option<u16>, rows: Option<u16>) -> (r: Self)
        ensures
            r.inner() == inner,
            r.cols() == cols,
            r.rows() == rows,
    {
        FixedSizeTty { inner, cols, rows }
    }
}

/// A size with the given columns and rows put in place of the reported ones.
pub open spec fn fixed_size(reported: (u16, u16), cols: Option<u16>, rows: Option<u16>) -> (u16, u16) {
    (
        match cols {
            Some(c) => c,
            None => reported.0,
        },
        match rows {
            Some(r) => r,
            None => reported.1,
        },
    )
}

impl<T: Tty> Tty for FixedSizeTty<T> {
    open spec fn reported_size(&self) -> (u16, u16) {
        fixed_size(self.inner().reported_size(), self.cols(), self.rows())
    }

    fn get_size(&self) -> (r: (u16, u16)) {
        let mut winsize = self.inner.get_size();
        if let Some(cols) = self.cols {
            winsize.0 = cols;
        }
        if let Some(rows) = self.rows {
            winsize.1 = rows;
        }
        winsize
    }
}

/// Fixing both dimensions makes the inner terminal's size irrelevant; fixing neither
/// reports the inner size unchanged.
pub proof fn law_fixed_size(reported: (u16, u16), cols: u16, rows: u16)
    ensures
        fixed_size(reported, Some(cols), Some(rows)) == (cols, rows),
        fixed_size(reported, None, None) == reported,
{
}

} // verus!
