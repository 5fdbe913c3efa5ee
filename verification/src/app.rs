//! The application: a board, a column cursor, what each input event does
//! to them, and the frame that shows them.

use vstd::prelude::*;
use crate::board::{Board, COLS};
use crate::cursor::{lemma_cursor_stays_on_board, next_column_of, previous_column_of, Cursor};
use crate::error::AppError;
use crate::geometry::Rect;
use crate::grid::{
    cell_rects, fits, lemma_grid_partition, placements, rendering, GridWidget, Placement,
};
use crate::input::{flow_of, request, request_of, Command, Event, Flow};
use crate::screen::{may_find, outer_regions, Regions};

verus! {

/// Size of a box's content unless the application is told otherwise.
pub const DEFAULT_CELL_SIZE: u16 = 5;

/// The cursor's column after a command.
pub open spec fn column_after(column: int, command: Command) -> int {
    match command {
        Command::NextColumn => next_column_of(column),
        Command::PreviousColumn => previous_column_of(column),
        _ => column,
    }
}

/// How a run over a list of events ends.
pub struct RunEnd {
    /// The cursor's column when the loop was left.
    pub column: int,
    /// Frames drawn after the first one.
    pub redraws: nat,
    /// Whether the loop was left because a frame could not be drawn.
    pub aborted: bool,
}

/// The run loop on a list of events, from a cursor on `column`. A frame is
/// drawn before the first event is read. Each event is then handled in
/// turn: the loop ends at the first that makes it leave, and after any
/// other it draws again. When the list is used up the input has ended,
/// which is a request to quit.
pub open spec fn run_of(column: int, events: Seq<Event>) -> RunEnd
    decreases events.len(),
{
    if events.len() == 0 {
        RunEnd { column, redraws: 0, aborted: false }
    } else {
        match flow_of(events[0]) {
            Flow::Quit => RunEnd { column, redraws: 0, aborted: false },
            Flow::Abort => RunEnd { column, redraws: 0, aborted: true },
            Flow::Redraw => {
                let rest = run_of(
                    column_after(column, request_of(events[0])),
                    events.subrange(1, events.len() as int),
                );
                RunEnd { column: rest.column, redraws: rest.redraws + 1, aborted: rest.aborted }
            },
        }
    }
}

/// A run keeps the cursor on the board, whatever the events, and draws
/// again at most once for each event.
pub proof fn lemma_run_stays_on_board(column: int, events: Seq<Event>)
    requires
        0 <= column < COLS,
    ensures
        0 <= run_of(column, events).column < COLS,
        run_of(column, events).redraws <= events.len(),
    decreases events.len(),
{
    if events.len() > 0 && flow_of(events[0]) == Flow::Redraw {
        lemma_cursor_stays_on_board(column);
        lemma_run_stays_on_board(
            column_after(column, request_of(events[0])),
            events.subrange(1, events.len() as int),
        );
    }
}

/// The board with its cursor, and the size its cells are drawn in.
#[derive(Clone, Copy, Debug, PartialEq, Eq)]
pub struct App {
    /// The selected column.
    pub cursor: Cursor,
    /// Columns and rows of the content of a cell's box.
    pub cell_size: u16,
    /// The cells.
    pub board: Board,
}

/// What a run that ended as the user wished leaves behind.
#[derive(Clone, Copy, Debug, PartialEq, Eq)]
pub struct RunReport {
    /// The application when the loop was left.
    pub app: App,
    /// Frames drawn after the first one.
    pub redraws: usize,
}

/// One frame: what is drawn where.
#[derive(Debug, PartialEq, Eq)]
pub struct Scene {
    /// The regions the frame is drawn in.
    pub regions: Regions,
    /// The placements of the board's cells in the board's region; none
    /// where the region is too small for the board, and a notice is due
    /// instead.
    pub cells: Option<Vec<Placement>>,
    /// The column the cursor is on: its cells are drawn highlighted.
    pub selected: usize,
}

impl Scene {
    /// Whether a placement is drawn highlighted: those in the cursor's
    /// column are, and no others.
    pub fn highlights(&self, placed: &Placement) -> (yes: bool)
        ensures
            yes == (placed.col == self.selected),
    {
        placed.col == self.selected
    }
}

impl Default for App {
    /// The application at start: an empty board, the cursor on the first
    /// column, cells of the default size.
    fn default() -> (app: App)
        ensures
            app.cursor@ == 0,
            app.cell_size == DEFAULT_CELL_SIZE,
            app.board@ == Board::blank(),
    {
        App { cursor: Cursor::new(), cell_size: DEFAULT_CELL_SIZE, board: Board::new() }
    }
}

impl App {
    /// Moves the cursor one column right, unless it is on the last column.
    pub fn next_column(&mut self)
        ensures
            final(self).cursor@ == next_column_of(old(self).cursor@),
            final(self).cell_size == old(self).cell_size,
            final(self).board@ == old(self).board@,
    {
        self.cursor.next_column();
    }

    /// Moves the cursor one column left, unless it is on the first column.
    pub fn previous_column(&mut self)
        ensures
            final(self).cursor@ == previous_column_of(old(self).cursor@),
            final(self).cell_size == old(self).cell_size,
            final(self).board@ == old(self).board@,
    {
        self.cursor.previous_column();
    }

    /// The widget that draws this application's board.
    pub fn widget(&self) -> (widget: GridWidget)
        ensures
            widget.cell_size == self.cell_size,
    {
        GridWidget::new(self.cell_size)
    }

    /// The frame for the given regions: the board rendered into the
    /// board's region, the cursor's column marked.
    pub fn compose(&self, regions: Regions) -> (scene: Scene)
        ensures
            scene.regions == regions,
            scene.selected == self.cursor@,
            scene.selected < COLS,
            match scene.cells {
                Some(all) => rendering(self.cell_size, regions.grid, self.board@) == Some(all@),
                None => rendering(self.cell_size, regions.grid, self.board@).is_none(),
            },
    {
        Scene {
            regions,
            cells: self.widget().render(regions.grid, &self.board),
            selected: self.cursor.column(),
        }
    }

    /// The frame for a terminal of the given size. The terminal is cut into
    /// regions as `may_find` says, by the layout solver: there is a frame
    /// if and only if the regions made of the solver's bands lie on the
    /// terminal, and it is the one that `compose` makes for them. So all
    /// that a frame draws lies on the terminal: the regions, the footer
    /// below the board's region and in line with it, and the box of every
    /// cell.
    pub fn draw(&self, terminal: Rect) -> (frame: Option<Scene>)
        ensures
            may_find(
                terminal,
                match frame {
                    Some(scene) => Some(scene.regions),
                    None => None,
                },
            ),
            frame matches Some(scene) ==> {
                &&& scene.regions.on_terminal(terminal)
                &&& scene.regions.footer.x == scene.regions.grid.x
                &&& scene.regions.footer.width == scene.regions.grid.width
                &&& scene.selected == self.cursor@
                &&& scene.selected < COLS
                &&& match scene.cells {
                    Some(all) => {
                        &&& rendering(self.cell_size, scene.regions.grid, self.board@) == Some(
                            all@,
                        )
                        &&& forall|i: int|
                            0 <= i < all@.len() ==> terminal.encloses((#[trigger] all@[i]).rect)
                    },
                    None => rendering(self.cell_size, scene.regions.grid, self.board@).is_none(),
                }
            },
    {
        match outer_regions(terminal) {
            Some(regions) => {
                let scene = self.compose(regions);
                proof {
                    if fits(self.cell_size, regions.grid) {
                        lemma_grid_partition(self.cell_size, regions.grid);
                        let boxes = cell_rects(self.cell_size, regions.grid);
                        let all = placements(self.cell_size, regions.grid, self.board@);
                        assert forall|i: int| 0 <= i < all.len() implies terminal.encloses(
                            (#[trigger] all[i]).rect,
                        ) by {
                            assert(all[i].rect == boxes[i]);
                            assert(regions.grid.encloses(boxes[i]));
                        }
                    }
                }
                Some(scene)
            },
            None => None,
        }
    }

    /// Takes one event: moves the cursor as the event asks, and says what
    /// the run loop does next. The board and the cell size stay as they
    /// are.
    pub fn handle_event(&mut self, event: Event) -> (flow: Flow)
        ensures
            flow == flow_of(event),
            final(self).cursor@ == column_after(old(self).cursor@, request_of(event)),
            final(self).cell_size == old(self).cell_size,
            final(self).board@ == old(self).board@,
    {
        match event {
            Event::InputStreamClosed => Flow::Quit,
            Event::RenderSurfaceUnavailable => Flow::Abort,
            _ => match request(event) {
                Command::Quit => Flow::Quit,
                Command::NextColumn => {
                    self.next_column();
                    Flow::Redraw
                },
                Command::PreviousColumn => {
                    self.previous_column();
                    Flow::Redraw
                },
                Command::Ignore => Flow::Redraw,
            },
        }
    }

    /// Runs the loop on a list of events, as `run_of` describes it: the
    /// report of a run that ended with a request to quit or with the end of
    /// the list, the error of one that ended because a frame could not be
    /// drawn.
    pub fn run(self, events: &Vec<Event>) -> (end: Result<RunReport, AppError>)
        ensures
            match end {
                Ok(report) => {
                    &&& !run_of(self.cursor@, events@).aborted
                    &&& report.app.cursor@ == run_of(self.cursor@, events@).column
                    &&& report.redraws == run_of(self.cursor@, events@).redraws
                    &&& report.app.cell_size == self.cell_size
                    &&& report.app.board@ == self.board@
                },
                Err(error) => {
                    &&& run_of(self.cursor@, events@).aborted
                    &&& error == AppError::RenderSurfaceUnavailable
                },
            },
    {
        let mut app = self;
        let mut handled: usize = 0;
        assert(events@.subrange(0, events@.len() as int) =~= events@);
        while handled < events.len()
            invariant
                handled <= events@.len(),
                app.cell_size == self.cell_size,
                app.board@ == self.board@,
                run_of(self.cursor@, events@).redraws == handled + run_of(
                    app.cursor@,
                    events@.subrange(handled as int, events@.len() as int),
                ).redraws,
                run_of(self.cursor@, events@).column == run_of(
                    app.cursor@,
                    events@.subrange(handled as int, events@.len() as int),
                ).column,
                run_of(self.cursor@, events@).aborted == run_of(
                    app.cursor@,
                    events@.subrange(handled as int, events@.len() as int),
                ).aborted,
            decreases events@.len() - handled,
        {
            let ghost rest = events@.subrange(handled as int, events@.len() as int);
            let ghost before = app.cursor@;
            assert(rest[0] == events@[handled as int]);
            assert(rest.subrange(1, rest.len() as int) =~= events@.subrange(
                handled + 1,
                events@.len() as int,
            ));
            match app.handle_event(events[handled]) {
                Flow::Redraw => {
                    handled += 1;
                },
                Flow::Quit => {
                    return Ok(RunReport { app, redraws: handled });
                },
                Flow::Abort => {
                    return Err(AppError::RenderSurfaceUnavailable);
                },
            }
        }
        assert(events@.subrange(handled as int, events@.len() as int).len() == 0);
        Ok(RunReport { app, redraws: handled })
    }
}

} // verus!
