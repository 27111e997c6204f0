use crate::settings::ImageFormat;
use vstd::prelude::*;

verus! {

/// Whether the screenshot is being annotated.
#[derive(Debug, Clone, Copy, PartialEq, Eq, Structural)]
pub enum Mood {
    Edit,
    Idle,
}

/// The annotation panel that is open.
#[derive(Debug, Clone, Copy, PartialEq, Eq, Structural)]
pub enum TypeEdit {
    Shape,
    Draw,
    Text,
    NoTool,
}

/// What the next capture takes.
#[derive(Debug, Clone, Copy, PartialEq, Eq, Structural)]
pub enum ScreenshotType {
    AllScreens,
    ScreenArea,
    SelectedScreen,
}

/// A colour given by its red, green and blue parts.
#[derive(Debug, Clone, Copy, PartialEq, Eq, Structural)]
pub struct Rgb {
    pub red: u8,
    pub green: u8,
    pub blue: u8,
}

impl Rgb {
    pub fn new(red: u8, green: u8, blue: u8) -> (color: Self)
        ensures
            color == (Rgb { red, green, blue }),
    {
        Rgb { red, green, blue }
    }
}

/// Figure kinds drawn by the editor.
pub const FIGURE_CIRCLE: i32 = 0;
pub const FIGURE_RECTANGLE: i32 = 1;
pub const FIGURE_ARROW: i32 = 2;
pub const FIGURE_TEXT: i32 = 3;
pub const FIGURE_FREEHAND: i32 = 4;

/// The state of the main window apart from the picture and the figures drawn on it.
#[derive(Debug, Clone, Copy, PartialEq, Eq, Structural)]
pub struct EditorState {
    /// The display that captures are taken from.
    pub screen_index: Option<u8>,
    /// Seconds to wait before a capture.
    pub timer: Option<i64>,
    pub edit: Mood,
    pub type_e: TypeEdit,
    pub draw_shape: bool,
    pub draw_draw: bool,
    pub draw_text: bool,
    pub crop: bool,
    /// 1 once the editor has been entered since the last save or exit.
    pub flag: i32,
    /// The figure kind to draw (see the `FIGURE_` constants).
    pub draw: Option<i32>,
    pub filled: bool,
    pub color: Rgb,
    pub color_fill: Rgb,
    /// Progress of the figure under the pointer: 0 none yet, 1 being drawn, -1 finished.
    pub draw_dim_variable: i32,
    /// -1 while no crop rectangle has been started.
    pub cut: i32,
    pub selected_ext: ImageFormat,
    pub is_taking_screenshot: bool,
    pub screenshot_type: ScreenshotType,
}

/// At most one of the editing tools is active.
pub open spec fn tools_exclusive(state: EditorState) -> bool {
    (if state.draw_shape { 1int } else { 0 }) + (if state.draw_draw { 1int } else { 0 })
        + (if state.draw_text { 1int } else { 0 }) + (if state.crop { 1int } else { 0 }) <= 1
}

/// The label of the shape chosen in the shape panel.
pub open spec fn shape_name(kind: i32) -> Seq<char> {
    if kind == FIGURE_CIRCLE {
        "Cicle"@
    } else if kind == FIGURE_RECTANGLE {
        "Square"@
    } else if kind == FIGURE_ARROW {
        "Arrow"@
    } else {
        ""@
    }
}

/// The label of the shape chosen in the shape panel.
pub fn shape_label(kind: i32) -> (label: String)
    ensures
        label@ == shape_name(kind),
{
    if kind == FIGURE_CIRCLE {
        String::from_str("Cicle")
    } else if kind == FIGURE_RECTANGLE {
        String::from_str("Square")
    } else if kind == FIGURE_ARROW {
        String::from_str("Arrow")
    } else {
        String::from_str("")
    }
}

impl EditorState {
    pub open spec fn spec_new() -> EditorState {
        EditorState {
            screen_index: Some(0),
            timer: Some(0),
            edit: Mood::Idle,
            type_e: TypeEdit::NoTool,
            draw_shape: false,
            draw_draw: false,
            draw_text: false,
            crop: false,
            flag: 0,
            draw: Some(-1i32),
            filled: false,
            color: Rgb { red: 0, green: 0, blue: 0 },
            color_fill: Rgb { red: 0, green: 0, blue: 0 },
            draw_dim_variable: 0,
            cut: -1i32,
            selected_ext: ImageFormat::Png,
            is_taking_screenshot: false,
            screenshot_type: ScreenshotType::SelectedScreen,
        }
    }

    /// The state at start-up: first display, no delay, nothing being edited.
    pub fn new() -> (state: Self)
        ensures
            state == EditorState::spec_new(),
            tools_exclusive(state),
    {
        EditorState {
            screen_index: Some(0),
            timer: Some(0),
            edit: Mood::Idle,
            type_e: TypeEdit::NoTool,
            draw_shape: false,
            draw_draw: false,
            draw_text: false,
            crop: false,
            flag: 0,
            draw: Some(-1),
            filled: false,
            color: Rgb::new(0, 0, 0),
            color_fill: Rgb::new(0, 0, 0),
            draw_dim_variable: 0,
            cut: -1,
            selected_ext: ImageFormat::Png,
            is_taking_screenshot: false,
            screenshot_type: ScreenshotType::SelectedScreen,
        }
    }

    /// "New Screen": a capture of all screens is due once the window is hidden.
    pub fn request_new_screenshot(&mut self)
        ensures
            tools_exclusive(*old(self)) ==> tools_exclusive(*final(self)),
            *final(self) == (EditorState {
                is_taking_screenshot: true,
                screenshot_type: ScreenshotType::AllScreens,
                ..*old(self)
            }),
    {
        self.is_taking_screenshot = true;
        self.screenshot_type = ScreenshotType::AllScreens;
    }

    /// Starts a due capture: returns what to capture, and clears the request.
    pub fn take_pending_screenshot(&mut self) -> (pending: Option<ScreenshotType>)
        ensures
            tools_exclusive(*old(self)) ==> tools_exclusive(*final(self)),
            pending == (if old(self).is_taking_screenshot { Some(old(self).screenshot_type) } else { None }),
            *final(self) == (EditorState { is_taking_screenshot: false, ..*old(self) }),
    {
        if self.is_taking_screenshot {
            self.is_taking_screenshot = false;
            Some(self.screenshot_type)
        } else {
            None
        }
    }

    /// "Edit": the editor opens; the first time since the last save or exit
    /// the circle is the chosen figure.
    pub fn enter_edit(&mut self)
        ensures
            tools_exclusive(*old(self)) ==> tools_exclusive(*final(self)),
            *final(self) == (if old(self).flag == 0 {
                EditorState { edit: Mood::Edit, flag: 1, draw: Some(FIGURE_CIRCLE), ..*old(self) }
            } else {
                EditorState { edit: Mood::Edit, ..*old(self) }
            }),
    {
        self.edit = Mood::Edit;
        if self.flag == 0 {
            self.flag = 1;
            self.draw = Some(FIGURE_CIRCLE);
        }
    }

    /// "Shape": the shape tool, starting with the circle.
    pub fn select_shape_tool(&mut self)
        ensures
            *final(self) == (EditorState {
                draw_shape: true,
                draw_draw: false,
                draw_text: false,
                crop: false,
                type_e: TypeEdit::Shape,
                draw: Some(FIGURE_CIRCLE),
                ..*old(self)
            }),
            tools_exclusive(*final(self)),
    {
        self.draw_shape = true;
        self.draw_draw = false;
        self.draw_text = false;
        self.crop = false;
        self.type_e = TypeEdit::Shape;
        self.draw = Some(FIGURE_CIRCLE);
    }

    /// "Draw": the free-hand tool.
    pub fn select_draw_tool(&mut self)
        ensures
            *final(self) == (EditorState {
                type_e: TypeEdit::Draw,
                draw_draw: true,
                draw_shape: false,
                draw_text: false,
                crop: false,
                ..*old(self)
            }),
            tools_exclusive(*final(self)),
    {
        self.type_e = TypeEdit::Draw;
        self.draw_draw = true;
        self.draw_shape = false;
        self.draw_text = false;
        self.crop = false;
    }

    /// "Text": the text tool.
    pub fn select_text_tool(&mut self)
        ensures
            *final(self) == (EditorState {
                draw_shape: false,
                draw_draw: false,
                draw: Some(FIGURE_TEXT),
                draw_text: true,
                type_e: TypeEdit::Text,
                crop: false,
                ..*old(self)
            }),
            tools_exclusive(*final(self)),
    {
        self.draw_shape = false;
        self.draw_draw = false;
        self.draw = Some(FIGURE_TEXT);
        self.draw_text = true;
        self.type_e = TypeEdit::Text;
        self.crop = false;
    }

    /// "Crop": the crop tool.
    pub fn select_crop_tool(&mut self)
        ensures
            *final(self) == (EditorState {
                draw_shape: false,
                draw_draw: false,
                draw_text: false,
                crop: true,
                ..*old(self)
            }),
            tools_exclusive(*final(self)),
    {
        self.draw_shape = false;
        self.draw_draw = false;
        self.draw_text = false;
        self.crop = true;
    }

    /// "Cancel": no tool is active.
    pub fn cancel_tool(&mut self)
        ensures
            *final(self) == (EditorState {
                draw_shape: false,
                draw_draw: false,
                draw_text: false,
                crop: false,
                ..*old(self)
            }),
            tools_exclusive(*final(self)),
    {
        self.draw_shape = false;
        self.draw_draw = false;
        self.draw_text = false;
        self.crop = false;
    }

    /// "Save" in the editor: the annotated picture is kept and the editor closes.
    pub fn save_edit(&mut self)
        ensures
            *final(self) == (EditorState {
                flag: 0,
                draw_shape: false,
                draw_text: false,
                draw_draw: false,
                crop: false,
                edit: Mood::Idle,
                draw: None,
                ..*old(self)
            }),
            tools_exclusive(*final(self)),
    {
        self.flag = 0;
        self.draw_shape = false;
        self.draw_text = false;
        self.draw_draw = false;
        self.crop = false;
        self.edit = Mood::Idle;
        self.draw = None;
    }

    /// "Exit" from the editor: the annotations are dropped and the editor closes.
    pub fn exit_edit(&mut self)
        ensures
            *final(self) == (EditorState {
                draw_shape: false,
                draw_draw: false,
                draw_text: false,
                crop: false,
                edit: Mood::Idle,
                flag: 0,
                type_e: TypeEdit::NoTool,
                ..*old(self)
            }),
            tools_exclusive(*final(self)),
    {
        self.draw_shape = false;
        self.draw_draw = false;
        self.draw_text = false;
        self.crop = false;
        self.edit = Mood::Idle;
        self.flag = 0;
        self.type_e = TypeEdit::NoTool;
    }

    /// "Exit" in the shape panel: the panel closes and filling is switched off.
    pub fn leave_shape_panel(&mut self)
        ensures
            tools_exclusive(*old(self)) ==> tools_exclusive(*final(self)),
            *final(self) == (EditorState { type_e: TypeEdit::NoTool, filled: false, ..*old(self) }),
    {
        self.type_e = TypeEdit::NoTool;
        self.filled = false;
    }

    /// "Exit" in the draw or text panel: the panel closes.
    pub fn leave_panel(&mut self)
        ensures
            tools_exclusive(*old(self)) ==> tools_exclusive(*final(self)),
            *final(self) == (EditorState { type_e: TypeEdit::NoTool, ..*old(self) }),
    {
        self.type_e = TypeEdit::NoTool;
    }

    /// The text panel draws text.
    pub fn use_text_figure(&mut self)
        ensures
            tools_exclusive(*old(self)) ==> tools_exclusive(*final(self)),
            *final(self) == (EditorState { draw: Some(FIGURE_TEXT), ..*old(self) }),
    {
        self.draw = Some(FIGURE_TEXT);
    }

    /// The draw panel draws free-hand lines.
    pub fn use_freehand_figure(&mut self)
        ensures
            tools_exclusive(*old(self)) ==> tools_exclusive(*final(self)),
            *final(self) == (EditorState { draw: Some(FIGURE_FREEHAND), ..*old(self) }),
    {
        self.draw = Some(FIGURE_FREEHAND);
    }

    /// Whether the shape panel has a figure kind to draw (kinds are not negative).
    pub fn figure_chosen(&self) -> (chosen: bool)
        requires
            self.draw is Some,
        ensures
            chosen == (self.draw->0 >= 0),
    {
        self.draw.unwrap() >= 0
    }

    /// One frame of the crop tool: a click starts a crop rectangle, and Enter
    /// confirms a started one. Returns whether the crop is confirmed now;
    /// confirming ends the rectangle.
    pub fn crop_step(&mut self, clicked: bool, enter: bool) -> (confirmed: bool)
        ensures
            tools_exclusive(*old(self)) ==> tools_exclusive(*final(self)),
            confirmed == (enter && (clicked || old(self).cut != -1)),
            final(self).cut == (if confirmed { -1i32 } else if clicked { 0 } else { old(self).cut }),
            *final(self) == (EditorState { cut: final(self).cut, ..*old(self) }),
    {
        if clicked {
            self.cut = 0;
        }
        let confirmed = enter && self.cut != -1;
        if confirmed {
            self.cut = -1;
        }
        confirmed
    }
}

/// What a frame of drawing does to the list of figures.
#[derive(Debug, Clone, Copy, PartialEq, Eq, Structural)]
pub enum FigureAction {
    /// The list stays as it is.
    Nothing,
    /// A new figure is appended.
    Push,
    /// The last figure is replaced by the one under the pointer.
    ReplaceLast,
}

/// What the pointer and keyboard did in a frame, and where the pointer is.
#[derive(Debug, Clone, Copy, PartialEq, Eq, Structural)]
pub struct FigureInput {
    /// The primary button was clicked.
    pub clicked: bool,
    /// The primary button is held down.
    pub down: bool,
    /// Enter was pressed.
    pub enter: bool,
    /// The press origin and the pointer both lie over the picture.
    pub inside: bool,
    /// A circle centred on the press origin through the pointer fits the picture.
    pub circle_fits: bool,
}

/// The outcome of a frame of drawing.
#[derive(Debug, Clone, Copy, PartialEq, Eq, Structural)]
pub struct FigureStep {
    /// The new progress of the figure under the pointer.
    pub dim: i32,
    pub action: FigureAction,
    /// A pushed free-hand segment starts where the last segment ended
    /// (otherwise it starts at the press origin).
    pub from_last_end: bool,
    /// The figure kind is unknown, or a free-hand line continues from a figure
    /// that is not a free-hand segment.
    pub report_error: bool,
}

/// The decision of a frame of drawing a figure of kind `kind`, with `dim` the
/// progress so far and `last_is_freehand` telling whether the last figure in
/// the list is a free-hand segment.
///
/// A click restarts the progress. Nothing happens unless the button is held
/// over the picture. Circles (when they fit), rectangles and arrows are
/// appended when a drag starts and then replaced while it goes on; Enter ends
/// the figure. Text is appended on every such frame. A free-hand line appends a
/// segment per frame, continuing from the last segment, until Enter finishes it.
pub open spec fn figure_decision(kind: i32, dim: i32, last_is_freehand: bool, input: FigureInput) -> FigureStep {
    let d0 = if input.clicked { 0 } else { dim };
    let idle = FigureStep { dim: d0, action: FigureAction::Nothing, from_last_end: false, report_error: false };
    if !input.down || !input.inside {
        idle
    } else if kind == FIGURE_CIRCLE || kind == FIGURE_RECTANGLE || kind == FIGURE_ARROW {
        if kind == FIGURE_CIRCLE && !input.circle_fits {
            idle
        } else {
            let d1 = if d0 == 0 { 1 } else { d0 };
            FigureStep {
                dim: if input.enter { 0 } else { d1 },
                action: if d0 == 0 { FigureAction::Push } else { FigureAction::ReplaceLast },
                from_last_end: false,
                report_error: false,
            }
        }
    } else if kind == FIGURE_TEXT {
        FigureStep { dim: d0, action: FigureAction::Push, from_last_end: false, report_error: false }
    } else if kind == FIGURE_FREEHAND {
        let d1 = if d0 == 0 { 1 } else { d0 };
        let d2 = if input.enter { -1i32 } else { d1 };
        FigureStep {
            dim: d2,
            action: if d2 == 1 || d2 == 0 { FigureAction::Push } else { FigureAction::Nothing },
            from_last_end: d0 == 1 && last_is_freehand,
            report_error: d0 == 1 && !last_is_freehand,
        }
    } else {
        FigureStep { dim: d0, action: FigureAction::Nothing, from_last_end: false, report_error: true }
    }
}

/// The frame reads the last figure of the list: a drag of a circle, rectangle
/// or arrow goes on, or a free-hand line continues.
pub open spec fn figure_reads_last(kind: i32, dim: i32, input: FigureInput) -> bool {
    let d0 = if input.clicked { 0 } else { dim };
    &&& input.down
    &&& input.inside
    &&& ((kind == FIGURE_CIRCLE && input.circle_fits) || kind == FIGURE_RECTANGLE || kind == FIGURE_ARROW) && d0 != 0
        || kind == FIGURE_FREEHAND && d0 == 1
}

/// Whether a frame of drawing reads the last figure of the list, which must then exist.
pub fn reads_last_figure(kind: i32, dim: i32, input: FigureInput) -> (reads: bool)
    ensures
        reads == figure_reads_last(kind, dim, input),
{
    let d0 = if input.clicked { 0 } else { dim };
    input.down && input.inside && ((((kind == FIGURE_CIRCLE && input.circle_fits) || kind == FIGURE_RECTANGLE
        || kind == FIGURE_ARROW) && d0 != 0) || (kind == FIGURE_FREEHAND && d0 == 1))
}

/// Decides a frame of drawing; `figures` is the number of figures drawn so far.
pub fn figure_step(kind: i32, dim: i32, figures: usize, last_is_freehand: bool, input: FigureInput) -> (step: FigureStep)
    requires
        figure_reads_last(kind, dim, input) ==> figures > 0,
    ensures
        step == figure_decision(kind, dim, last_is_freehand, input),
{
    let mut d: i32 = dim;
    if input.clicked {
        d = 0;
    }
    let mut step = FigureStep { dim: d, action: FigureAction::Nothing, from_last_end: false, report_error: false };
    if input.down && input.inside {
        if kind == FIGURE_CIRCLE || kind == FIGURE_RECTANGLE || kind == FIGURE_ARROW {
            if kind != FIGURE_CIRCLE || input.circle_fits {
                if d == 0 {
                    step.action = FigureAction::Push;
                    d = 1;
                } else {
                    step.action = FigureAction::ReplaceLast;
                }
                if input.enter {
                    d = 0;
                }
                step.dim = d;
            }
        } else if kind == FIGURE_TEXT {
            step.action = FigureAction::Push;
        } else if kind == FIGURE_FREEHAND {
            if d == 1 {
                if last_is_freehand {
                    step.from_last_end = true;
                } else {
                    step.report_error = true;
                }
            } else if d == 0 {
                d = 1;
            }
            if input.enter {
                d = -1;
            }
            if d == 1 || d == 0 {
                step.action = FigureAction::Push;
            }
            step.dim = d;
        } else {
            step.report_error = true;
        }
    }
    step
}

/// Dragging a circle that fits, a rectangle or an arrow over the picture: the
/// frame where the progress (after a click restarts it) is 0 appends the
/// figure and starts the progress; every later frame of the drag replaces the
/// last figure, so the figure follows the pointer instead of leaving copies;
/// Enter ends the figure, so the next drag appends a new one.
pub proof fn lemma_drag_shape(kind: i32, dim: i32, last_is_freehand: bool, input: FigureInput)
    requires
        (kind == FIGURE_CIRCLE && input.circle_fits) || kind == FIGURE_RECTANGLE || kind == FIGURE_ARROW,
        input.down,
        input.inside,
    ensures
        (input.clicked || dim == 0) ==> figure_decision(kind, dim, last_is_freehand, input).action == FigureAction::Push,
        !(input.clicked || dim == 0) ==> figure_decision(kind, dim, last_is_freehand, input).action == FigureAction::ReplaceLast,
        input.enter ==> figure_decision(kind, dim, last_is_freehand, input).dim == 0,
        !input.enter && (input.clicked || dim == 0) ==> figure_decision(kind, dim, last_is_freehand, input).dim == 1,
        !input.enter && !(input.clicked || dim == 0) ==> figure_decision(kind, dim, last_is_freehand, input).dim == dim,
        !figure_decision(kind, dim, last_is_freehand, input).from_last_end,
        !figure_decision(kind, dim, last_is_freehand, input).report_error,
{
}

/// A circle that does not fit the picture is never drawn: the frame leaves the
/// figures alone and only a click restarts the progress.
pub proof fn lemma_circle_must_fit(dim: i32, last_is_freehand: bool, input: FigureInput)
    requires
        !input.circle_fits,
    ensures
        figure_decision(FIGURE_CIRCLE, dim, last_is_freehand, input).action == FigureAction::Nothing,
        figure_decision(FIGURE_CIRCLE, dim, last_is_freehand, input).dim == (if input.clicked { 0 } else { dim }),
{
}

/// Drawing free-hand over the picture: the frame where the progress (after a
/// click restarts it) is 0 starts a line at the press origin and sets the
/// progress to 1, click or not; while the progress is 1 every frame appends a
/// segment that continues from the end of the last one (an error is reported,
/// and the segment starts at the press origin, when the last figure is not a
/// segment); Enter finishes the line, and a finished line gets no segment until
/// a click restarts it.
pub proof fn lemma_freehand_line(dim: i32, last_is_freehand: bool, input: FigureInput)
    requires
        input.down,
        input.inside,
    ensures
        !input.enter && (input.clicked || dim == 0) ==> figure_decision(FIGURE_FREEHAND, dim, last_is_freehand, input)
            == (FigureStep { dim: 1, action: FigureAction::Push, from_last_end: false, report_error: false }),
        !input.enter && !input.clicked && dim == 1 ==> figure_decision(FIGURE_FREEHAND, dim, last_is_freehand, input)
            == (FigureStep { dim: 1, action: FigureAction::Push, from_last_end: last_is_freehand, report_error: !last_is_freehand }),
        input.enter ==> figure_decision(FIGURE_FREEHAND, dim, last_is_freehand, input).dim == -1
            && figure_decision(FIGURE_FREEHAND, dim, last_is_freehand, input).action == FigureAction::Nothing,
        !input.clicked && dim == -1 ==> figure_decision(FIGURE_FREEHAND, dim, last_is_freehand, input).action == FigureAction::Nothing
            && figure_decision(FIGURE_FREEHAND, dim, last_is_freehand, input).dim == -1,
{
}

/// Text is appended on every frame with the button held over the picture, and
/// its frames leave the progress as the click left it.
pub proof fn lemma_text_frames(dim: i32, last_is_freehand: bool, input: FigureInput)
    requires
        input.down,
        input.inside,
    ensures
        figure_decision(FIGURE_TEXT, dim, last_is_freehand, input)
            == (FigureStep { dim: if input.clicked { 0 } else { dim }, action: FigureAction::Push, from_last_end: false, report_error: false }),
{
}

/// The progress of a figure stays one of -1, 0 and 1, and a frame without the
/// button held over the picture leaves the figures as they are.
pub proof fn lemma_figure_step_bounds(kind: i32, dim: i32, last_is_freehand: bool, input: FigureInput)
    requires
        -1 <= dim <= 1,
    ensures
        -1 <= figure_decision(kind, dim, last_is_freehand, input).dim <= 1,
        !(input.down && input.inside) ==> figure_decision(kind, dim, last_is_freehand, input).action == FigureAction::Nothing,
        figure_decision(kind, dim, last_is_freehand, input).action == FigureAction::ReplaceLast ==> figure_reads_last(kind, dim, input),
{
}

} // verus!
