use vstd::prelude::*;

verus! {

/// Space kept free between the panel and each edge of the viewport, in pixels.
pub const EDGE_MARGIN: u32 = 10;

/// Viewport size assumed until the host reports one.
pub const DEFAULT_VIEWPORT_WIDTH: u32 = 1920;

pub const DEFAULT_VIEWPORT_HEIGHT: u32 = 1080;

/// The pointer is kept in fixed point: this many units make one viewport
/// width (or height), so `MOUSE_UNIT / 2` is the middle.
pub const MOUSE_UNIT: i64 = 65536;

/// What a `GlassState` holds. Sizes are whole pixels. Positions, the drag
/// anchor and the position at drag start are in half pixels (twice the offset
/// of the panel's center, or of the pointer, from the viewport's center), so
/// that the viewport's bounds, which can fall on half pixels, are exact.
/// `mouse_*` is the pointer in `MOUSE_UNIT`s per viewport size, and `time`
/// the animation clock in the host's unit; both are kept for the displacement
/// field.
pub struct PanelModel {
    pub x: int,
    pub y: int,
    pub anchor_x: int,
    pub anchor_y: int,
    pub start_x: int,
    pub start_y: int,
    pub mouse_x: int,
    pub mouse_y: int,
    pub dragging: bool,
    pub viewport_width: int,
    pub viewport_height: int,
    pub panel_width: int,
    pub panel_height: int,
    pub margin: int,
    pub time: int,
}

/// The farthest offset from the center, in half pixels, at which a panel of
/// size `panel` stays `margin` away from both edges of a viewport of size
/// `view`: twice `view / 2 - panel / 2 - margin`, the upper bound `maxX`.
/// The lower bound `minX` is its negation. Negative when the panel does not fit.
pub open spec fn reach(view: int, panel: int, margin: int) -> int {
    view - panel - 2 * margin
}

/// `p.max(minX).min(maxX)`, in half pixels. When the panel does not fit,
/// `minX > maxX` and `maxX` is what comes out.
pub open spec fn clamp_axis(p: int, view: int, panel: int, margin: int) -> int {
    let hi = reach(view, panel, margin);
    let raised = if p < -hi { -hi } else { p };
    if raised > hi { hi } else { raised }
}

/// `p` (in half pixels) lies in `[minX, maxX]`, that is in
/// `[-view/2 + panel/2 + margin, view/2 - panel/2 - margin]`, whenever that
/// interval is not empty.
pub open spec fn within_axis(p: int, view: int, panel: int, margin: int) -> bool {
    -reach(view, panel, margin) <= reach(view, panel, margin) ==> (-reach(view, panel, margin)
        <= p && p <= reach(view, panel, margin))
}

impl PanelModel {
    pub open spec fn initial(panel_width: int, panel_height: int) -> PanelModel {
        PanelModel {
            x: 0,
            y: 0,
            anchor_x: 0,
            anchor_y: 0,
            start_x: 0,
            start_y: 0,
            mouse_x: MOUSE_UNIT / 2,
            mouse_y: MOUSE_UNIT / 2,
            dragging: false,
            viewport_width: DEFAULT_VIEWPORT_WIDTH as int,
            viewport_height: DEFAULT_VIEWPORT_HEIGHT as int,
            panel_width,
            panel_height,
            margin: EDGE_MARGIN as int,
            time: 0,
        }
    }

    /// The position pulled back inside the viewport on both axes.
    pub open spec fn clamped(self) -> PanelModel {
        PanelModel {
            x: clamp_axis(self.x, self.viewport_width, self.panel_width, self.margin),
            y: clamp_axis(self.y, self.viewport_height, self.panel_height, self.margin),
            ..self
        }
    }

    /// The panel does not stick out of the viewport, on either axis where it fits.
    pub open spec fn inside(self) -> bool {
        within_axis(self.x, self.viewport_width, self.panel_width, self.margin) && within_axis(
            self.y,
            self.viewport_height,
            self.panel_height,
            self.margin,
        )
    }

    pub open spec fn with_viewport(self, width: int, height: int) -> PanelModel {
        PanelModel { viewport_width: width, viewport_height: height, ..self }.clamped()
    }

    pub open spec fn start_drag(self, px: int, py: int) -> PanelModel {
        PanelModel {
            dragging: true,
            anchor_x: px,
            anchor_y: py,
            start_x: self.x,
            start_y: self.y,
            ..self
        }
    }

    pub open spec fn update_drag(self, px: int, py: int) -> PanelModel {
        if self.dragging {
            PanelModel {
                x: self.start_x + (px - self.anchor_x),
                y: self.start_y + (py - self.anchor_y),
                ..self
            }.clamped()
        } else {
            self
        }
    }

    pub open spec fn stop_drag(self) -> PanelModel {
        PanelModel { dragging: false, ..self }
    }

    pub open spec fn with_mouse(self, mx: int, my: int) -> PanelModel {
        PanelModel { mouse_x: mx, mouse_y: my, ..self }
    }

    pub open spec fn advance_time(self, delta: int) -> PanelModel {
        PanelModel { time: self.time + delta, ..self }
    }
}

/// A value pulled into the bounds lies within them whenever they are not empty.
pub proof fn lemma_clamp_within(p: int, view: int, panel: int, margin: int)
    ensures
        within_axis(clamp_axis(p, view, panel, margin), view, panel, margin),
{
}

/// Clamp invariant: every change of the state keeps the panel inside the
/// viewport, and resizing the viewport or moving a drag puts it back inside
/// whatever held before.
pub proof fn lemma_position_within_bounds(
    m: PanelModel,
    width: int,
    height: int,
    px: int,
    py: int,
    delta: int,
)
    ensures
        m.with_viewport(width, height).inside(),
        m.dragging ==> m.update_drag(px, py).inside(),
        m.inside() ==> m.update_drag(px, py).inside(),
        m.inside() ==> m.start_drag(px, py).inside(),
        m.inside() ==> m.stop_drag().inside(),
        m.inside() ==> m.with_mouse(px, py).inside(),
        m.inside() ==> m.advance_time(delta).inside(),
{
    lemma_clamp_within(m.x, width, m.panel_width, m.margin);
    lemma_clamp_within(m.y, height, m.panel_height, m.margin);
    let moved_x = m.start_x + (px - m.anchor_x);
    let moved_y = m.start_y + (py - m.anchor_y);
    lemma_clamp_within(moved_x, m.viewport_width, m.panel_width, m.margin);
    lemma_clamp_within(moved_y, m.viewport_height, m.panel_height, m.margin);
}

/// Drag algebra: starting a drag at `p0` and moving it to `p1` puts the panel
/// at its position before the drag plus `p1 - p0`, clamped.
pub proof fn lemma_drag_moves_by_pointer_delta(
    m: PanelModel,
    p0x: int,
    p0y: int,
    p1x: int,
    p1y: int,
)
    ensures
        m.start_drag(p0x, p0y).update_drag(p1x, p1y).x == clamp_axis(
            m.x + (p1x - p0x),
            m.viewport_width,
            m.panel_width,
            m.margin,
        ),
        m.start_drag(p0x, p0y).update_drag(p1x, p1y).y == clamp_axis(
            m.y + (p1y - p0y),
            m.viewport_height,
            m.panel_height,
            m.margin,
        ),
{
}

/// Ending a drag leaves the position where it was and only clears the flag.
pub proof fn lemma_stop_drag_keeps_position(m: PanelModel)
    ensures
        m.stop_drag().x == m.x,
        m.stop_drag().y == m.y,
        !m.stop_drag().dragging,
        m.stop_drag() == (PanelModel { dragging: false, ..m }),
{
}

/// Position, drag gesture, viewport bounds, pointer and clock of one panel.
/// Positions and drag coordinates are in half pixels (see `PanelModel`).
pub struct GlassState {
    position_x: i64,
    position_y: i64,
    drag_start_x: i64,
    drag_start_y: i64,
    initial_position_x: i64,
    initial_position_y: i64,
    mouse_x: i64,
    mouse_y: i64,
    is_dragging: bool,
    viewport_width: u32,
    viewport_height: u32,
    glass_width: u32,
    glass_height: u32,
    offset: u32,
    time: i64,
}

impl View for GlassState {
    type V = PanelModel;

    closed spec fn view(&self) -> PanelModel {
        PanelModel {
            x: self.position_x as int,
            y: self.position_y as int,
            anchor_x: self.drag_start_x as int,
            anchor_y: self.drag_start_y as int,
            start_x: self.initial_position_x as int,
            start_y: self.initial_position_y as int,
            mouse_x: self.mouse_x as int,
            mouse_y: self.mouse_y as int,
            dragging: self.is_dragging,
            viewport_width: self.viewport_width as int,
            viewport_height: self.viewport_height as int,
            panel_width: self.glass_width as int,
            panel_height: self.glass_height as int,
            margin: self.offset as int,
            time: self.time as int,
        }
    }
}

/// `reach` computed on machine integers.
fn reach_of(view: u32, panel: u32, margin: u32) -> (r: i64)
    ensures
        r == reach(view as int, panel as int, margin as int),
{
    view as i64 - panel as i64 - 2 * (margin as i64)
}

/// `clamp_axis` computed on machine integers; `p` may be wider than the result.
fn clamp_to(p: i128, view: u32, panel: u32, margin: u32) -> (r: i64)
    ensures
        r == clamp_axis(p as int, view as int, panel as int, margin as int),
{
    let hi = reach_of(view, panel, margin);
    let lo: i128 = -(hi as i128);
    let raised: i128 = if p < lo {
        lo
    } else {
        p
    };
    if raised > hi as i128 {
        hi
    } else {
        raised as i64
    }
}

impl GlassState {
    #[verifier::type_invariant]
    spec fn inv(&self) -> bool {
        self@.inside()
    }

    /// A panel of the given size at the center of a 1920 by 1080 viewport,
    /// pointer in the middle, clock at zero, not dragging.
    pub fn new(glass_width: u32, glass_height: u32) -> (r: GlassState)
        ensures
            r@ == PanelModel::initial(glass_width as int, glass_height as int),
    {
        GlassState {
            position_x: 0,
            position_y: 0,
            drag_start_x: 0,
            drag_start_y: 0,
            initial_position_x: 0,
            initial_position_y: 0,
            mouse_x: MOUSE_UNIT / 2,
            mouse_y: MOUSE_UNIT / 2,
            is_dragging: false,
            viewport_width: DEFAULT_VIEWPORT_WIDTH,
            viewport_height: DEFAULT_VIEWPORT_HEIGHT,
            glass_width,
            glass_height,
            offset: EDGE_MARGIN,
            time: 0,
        }
    }

    /// Takes the new viewport size and pulls the panel back inside it.
    pub fn update_viewport(&mut self, width: u32, height: u32)
        ensures
            final(self)@ == old(self)@.with_viewport(width as int, height as int),
            final(self)@.inside(),
    {
        let (x, y) = self.constrain_position(
            self.position_x as i128,
            self.position_y as i128,
            width,
            height,
        );
        *self = GlassState {
            position_x: x,
            position_y: y,
            viewport_width: width,
            viewport_height: height,
            ..*self
        };
    }

    /// Starts (or restarts) a drag with the pointer at `(mouse_x, mouse_y)`,
    /// in half pixels from the viewport's center.
    pub fn start_drag(&mut self, mouse_x: i64, mouse_y: i64)
        ensures
            final(self)@ == old(self)@.start_drag(mouse_x as int, mouse_y as int),
            final(self)@.inside(),
    {
        proof {
            use_type_invariant(&*self);
        }
        self.is_dragging = true;
        self.drag_start_x = mouse_x;
        self.drag_start_y = mouse_y;
        self.initial_position_x = self.position_x;
        self.initial_position_y = self.position_y;
    }

    /// While dragging, moves the panel by the pointer's travel since the drag
    /// started, then pulls it back inside the viewport; otherwise does nothing.
    /// The pointer is in half pixels, as for `start_drag`.
    pub fn update_drag(&mut self, mouse_x: i64, mouse_y: i64)
        ensures
            final(self)@ == old(self)@.update_drag(mouse_x as int, mouse_y as int),
            final(self)@.inside(),
    {
        proof {
            use_type_invariant(&*self);
        }
        if self.is_dragging {
            let px: i128 = self.initial_position_x as i128 + (mouse_x as i128
                - self.drag_start_x as i128);
            let py: i128 = self.initial_position_y as i128 + (mouse_y as i128
                - self.drag_start_y as i128);
            let (nx, ny) = self.constrain_position(
                px,
                py,
                self.viewport_width,
                self.viewport_height,
            );
            self.position_x = nx;
            self.position_y = ny;
        }
    }

    /// Ends the drag; the panel stays where the drag left it.
    pub fn stop_drag(&mut self)
        ensures
            final(self)@ == old(self)@.stop_drag(),
            final(self)@.inside(),
    {
        proof {
            use_type_invariant(&*self);
        }
        self.is_dragging = false;
    }

    /// Records the pointer position that the displacement field reacts to.
    pub fn update_mouse(&mut self, x: i64, y: i64)
        ensures
            final(self)@ == old(self)@.with_mouse(x as int, y as int),
            final(self)@.inside(),
    {
        proof {
            use_type_invariant(&*self);
        }
        self.mouse_x = x;
        self.mouse_y = y;
    }

    /// Advances the animation clock by `delta_time`, which may be negative.
    pub fn update_time(&mut self, delta_time: i64)
        requires
            i64::MIN <= old(self)@.time + delta_time <= i64::MAX,
        ensures
            final(self)@ == old(self)@.advance_time(delta_time as int),
            final(self)@.inside(),
    {
        proof {
            use_type_invariant(&*self);
        }
        self.time = self.time + delta_time;
    }

    /// Offset of the panel's center from the viewport's center, in half pixels.
    pub fn get_position_x(&self) -> (r: i64)
        ensures
            r == self@.x,
    {
        self.position_x
    }

    /// Vertical offset of the panel's center, in half pixels.
    pub fn get_position_y(&self) -> (r: i64)
        ensures
            r == self@.y,
    {
        self.position_y
    }

    pub fn is_dragging(&self) -> (r: bool)
        ensures
            r == self@.dragging,
    {
        self.is_dragging
    }

    pub fn mouse_x(&self) -> (r: i64)
        ensures
            r == self@.mouse_x,
    {
        self.mouse_x
    }

    pub fn mouse_y(&self) -> (r: i64)
        ensures
            r == self@.mouse_y,
    {
        self.mouse_y
    }

    pub fn time(&self) -> (r: i64)
        ensures
            r == self@.time,
    {
        self.time
    }

    /// The point `(x, y)` pulled inside a viewport of the given size.
    fn constrain_position(&self, x: i128, y: i128, width: u32, height: u32) -> (r: (i64, i64))
        ensures
            r.0 == clamp_axis(x as int, width as int, self@.panel_width, self@.margin),
            r.1 == clamp_axis(y as int, height as int, self@.panel_height, self@.margin),
            within_axis(r.0 as int, width as int, self@.panel_width, self@.margin),
            within_axis(r.1 as int, height as int, self@.panel_height, self@.margin),
    {
        proof {
            lemma_clamp_within(x as int, width as int, self@.panel_width, self@.margin);
            lemma_clamp_within(y as int, height as int, self@.panel_height, self@.margin);
        }
        (clamp_to(x, width, self.glass_width, self.offset), clamp_to(
            y,
            height,
            self.glass_height,
            self.offset,
        ))
    }
}

} // verus!
