use vstd::prelude::*;

verus! {

/// The projection that the viewing system shows.
#[derive(Clone, Copy, Debug, PartialEq, Eq, Structural)]
pub enum ViewMode {
    Parallel,
    Perspective,
}

/// The other projection.
pub open spec fn other_mode(m: ViewMode) -> ViewMode {
    match m {
        ViewMode::Parallel => ViewMode::Perspective,
        ViewMode::Perspective => ViewMode::Parallel,
    }
}

/// The text on the toggle: the name of the current projection.
pub open spec fn mode_label(m: ViewMode) -> Seq<char> {
    match m {
        ViewMode::Parallel => "Parallel"@,
        ViewMode::Perspective => "Perspective"@,
    }
}

impl ViewMode {
    /// The projection that the window starts with.
    pub fn initial() -> (r: ViewMode)
        ensures
            r == ViewMode::Parallel,
    {
        ViewMode::Parallel
    }

    /// Whether the toggle is on: it is on in perspective.
    pub fn is_perspective(&self) -> (r: bool)
        ensures
            r == (*self == ViewMode::Perspective),
    {
        match self {
            ViewMode::Perspective => true,
            ViewMode::Parallel => false,
        }
    }

    /// The label of the toggle.
    pub fn label(&self) -> (r: &'static str)
        ensures
            r@ == mode_label(*self),
    {
        match self {
            ViewMode::Parallel => "Parallel",
            ViewMode::Perspective => "Perspective",
        }
    }

    /// The projection after one press of the toggle.
    pub fn toggled(&self) -> (r: ViewMode)
        ensures
            r == other_mode(*self),
            r != *self,
    {
        if self.is_perspective() {
            ViewMode::Parallel
        } else {
            ViewMode::Perspective
        }
    }

    /// The projection at the end of a frame in which the toggle was pressed
    /// `presses` times: each press switches away from the projection that the
    /// frame started with, so any press at all gives the other projection.
    pub fn after_presses(&self, presses: usize) -> (r: ViewMode)
        ensures
            r == (if presses == 0 { *self } else { other_mode(*self) }),
    {
        let start_perspective = self.is_perspective();
        let mut m: ViewMode = *self;
        let mut k: usize = 0;
        while k < presses
            invariant
                k <= presses,
                start_perspective == (*self == ViewMode::Perspective),
                m == (if k == 0 { *self } else { other_mode(*self) }),
            decreases presses - k,
        {
            m = if start_perspective {
                ViewMode::Parallel
            } else {
                ViewMode::Perspective
            };
            k = k + 1;
        }
        m
    }
}

/// Two presses of the toggle give back the projection that was shown.
pub proof fn toggle_twice_restores(m: ViewMode)
    ensures
        other_mode(other_mode(m)) == m,
{
}

} // verus!
