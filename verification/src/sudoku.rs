//! Grid cells with their candidate values, and the canvas that owns the
//! window state and the per-frame loop's only decision: closing on request.

use vstd::prelude::*;

use crate::ui::UIText;
use crate::ui::is_fresh_text;

verus! {

/// The candidate list every freshly built cell starts from: 1 through 8,
/// in order, independent of the cell's position.
pub open spec fn fresh_candidates() -> Seq<usize> {
    Seq::new(8, |i: int| (i + 1) as usize)
}

/// A single grid position holding the list of still-possible values.
#[derive(Debug)]
pub struct Cell {
    pub row: usize,
    pub col: usize,
    pub values: Vec<usize>,
}

impl Cell {
    /// Builds the cell at `(row, col)`, pre-filled with candidates 1..=8.
    pub fn new(row: usize, col: usize) -> (c: Cell)
        ensures
            c.row == row,
            c.col == col,
            c.values@ == fresh_candidates(),
    {
        let mut cell = Cell { row, col, values: Vec::new() };
        for i in 1..9usize
            invariant
                cell.row == row,
                cell.col == col,
                cell.values@.len() == i - 1,
                forall|k: int| 0 <= k < i - 1 ==> cell.values@[k] == k + 1,
        {
            cell.values.push(i);
        }
        proof {
            assert(cell.values@ =~= fresh_candidates());
        }
        cell
    }

    /// Maps the cell's grid coordinates to pixel coordinates: each step of
    /// a column or row advances by the cell size plus the spacing.
    pub fn calc_position(&self, cell_size: usize, spacement: usize) -> (p: (usize, usize))
        requires
            cell_size + spacement <= usize::MAX,
            self.col * (cell_size + spacement) <= usize::MAX,
            self.row * (cell_size + spacement) <= usize::MAX,
        ensures
            p.0 == self.col * (cell_size + spacement),
            p.1 == self.row * (cell_size + spacement),
    {
        let pos_x = self.col * (cell_size + spacement);
        let pos_y = self.row * (cell_size + spacement);
        (pos_x, pos_y)
    }
}

/// Builds the full grid: `rows` rows of `cols` freshly built cells, each
/// knowing its own position and starting from the same candidate list.
pub fn build_grid(rows: usize, cols: usize) -> (g: Vec<Vec<Cell>>)
    ensures
        g@.len() == rows,
        forall|i: int| 0 <= i < rows ==> #[trigger] g@[i]@.len() == cols,
        forall|i: int, j: int|
            0 <= i < rows && 0 <= j < cols ==> {
                &&& (#[trigger] g@[i]@[j]).row == i
                &&& g@[i]@[j].col == j
                &&& g@[i]@[j].values@ == fresh_candidates()
            },
{
    let mut cells: Vec<Vec<Cell>> = Vec::new();
    for i in 0..rows
        invariant
            cells@.len() == i,
            forall|p: int| 0 <= p < i ==> #[trigger] cells@[p]@.len() == cols,
            forall|p: int, q: int|
                0 <= p < i && 0 <= q < cols ==> {
                    &&& (#[trigger] cells@[p]@[q]).row == p
                    &&& cells@[p]@[q].col == q
                    &&& cells@[p]@[q].values@ == fresh_candidates()
                },
    {
        let mut row: Vec<Cell> = Vec::new();
        for j in 0..cols
            invariant
                row@.len() == j,
                forall|q: int| 0 <= q < j ==> {
                    &&& (#[trigger] row@[q]).row == i
                    &&& row@[q].col == q
                    &&& row@[q].values@ == fresh_candidates()
                },
        {
            let c = Cell::new(i, j);
            row.push(c);
        }
        cells.push(row);
    }
    cells
}

/// The window's lifecycle: it starts Open, and Closed is terminal.
#[derive(Clone, Copy, Debug, PartialEq, Eq, Structural)]
pub enum CanvasState {
    Open,
    Closed,
}

/// What one drained window event means to the canvas: either a request
/// to close the window, or anything else, which it ignores.
#[derive(Clone, Copy, Debug, PartialEq, Eq, Structural)]
pub enum CanvasEvent {
    CloseRequested,
    Other,
}

/// The render loop's one decision: a close request closes an open
/// window, every other event leaves the state alone, and a closed
/// window stays closed.
pub open spec fn spec_step(s: CanvasState, e: CanvasEvent) -> CanvasState {
    if s is Closed || e is CloseRequested {
        CanvasState::Closed
    } else {
        CanvasState::Open
    }
}

impl CanvasState {
    pub fn step(self, event: &CanvasEvent) -> (next: CanvasState)
        ensures
            next == spec_step(self, *event),
    {
        match self {
            CanvasState::Closed => CanvasState::Closed,
            CanvasState::Open => match event {
                CanvasEvent::CloseRequested => CanvasState::Closed,
                CanvasEvent::Other => CanvasState::Open,
            },
        }
    }
}

/// The Open-to-Closed transition is the only one there is: from Open it
/// fires exactly on a close request, and once Closed every further
/// event, close requests included, leaves the state Closed.
pub proof fn lemma_close_transition(e: CanvasEvent)
    ensures
        spec_step(CanvasState::Open, e) is Closed <==> e is CloseRequested,
        spec_step(CanvasState::Closed, e) is Closed,
        spec_step(CanvasState::Open, e) is Open <==> e is Other,
{
}

/// The canvas: the window's fixed configuration, its lifecycle state,
/// and the one static text label registered for drawing. The window
/// handle itself, and the loop that drains its events, live with the
/// caller; the canvas only decides.
#[derive(Debug)]
pub struct Canvas {
    pub width: u32,
    pub height: u32,
    pub title: String,
    pub framerate_limit: Option<u32>,
    pub state: CanvasState,
    pub text: UIText,
}

impl Canvas {
    /// A fresh canvas for a fixed-size window: open, with no frame-rate
    /// cap yet, and one greeting label registered.
    pub fn new(width: u32, height: u32, title: &str) -> (c: Canvas)
        ensures
            c.width == width,
            c.height == height,
            c.title@ == title@,
            c.framerate_limit is None,
            c.state is Open,
            is_fresh_text(c.text, "hello world!"@),
    {
        Canvas {
            width,
            height,
            title: String::from_str(title),
            framerate_limit: None,
            state: CanvasState::Open,
            text: UIText::new("hello world!"),
        }
    }

    /// Caps the frame rate at 60 frames per second.
    pub fn setup(&mut self)
        ensures
            final(self).framerate_limit == Some(60u32),
            final(self).width == old(self).width,
            final(self).height == old(self).height,
            final(self).title == old(self).title,
            final(self).state == old(self).state,
            final(self).text == old(self).text,
    {
        self.framerate_limit = Some(60);
    }

    /// Feeds one drained window event through the lifecycle step;
    /// nothing but the state can change.
    pub fn handle_event(&mut self, event: &CanvasEvent)
        ensures
            final(self).state == spec_step(old(self).state, *event),
            final(self).width == old(self).width,
            final(self).height == old(self).height,
            final(self).title == old(self).title,
            final(self).framerate_limit == old(self).framerate_limit,
            final(self).text == old(self).text,
    {
        self.state = self.state.step(event);
    }

    /// The render loop runs exactly while this holds.
    pub fn is_open(&self) -> (r: bool)
        ensures
            r == (self.state is Open),
    {
        match self.state {
            CanvasState::Open => true,
            CanvasState::Closed => false,
        }
    }
}

} // verus!

