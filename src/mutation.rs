//! Turning a client's parameter changes into the cheapest sufficient action,
//! while keeping the settings store and the renderer's state in step.
use vstd::prelude::*;
use crate::coordinator::RenderMode;

verus! {

/// What the renderer computes and shows: the point, the zoom, the rotation
/// and the iteration cap.
#[derive(Debug)]
pub struct Location {
    /// Real part of the centre, as decimal text of arbitrary precision.
    pub real: String,
    /// Imaginary part of the centre, as decimal text of arbitrary precision.
    pub imag: String,
    /// Magnification, as text such as `1.5E10`.
    pub zoom: String,
    /// Binary exponent of the view's scale: larger when zoomed further out.
    pub zoom_exponent: i64,
    /// Rotation in degrees, as decimal text.
    pub rotation: String,
    pub iterations: u64,
}

impl Location {
    /// A field-for-field copy.
    pub fn copied(&self) -> (r: Location)
        ensures
            r == *self,
    {
        Location {
            real: self.real.clone(),
            imag: self.imag.clone(),
            zoom: self.zoom.clone(),
            zoom_exponent: self.zoom_exponent,
            rotation: self.rotation.clone(),
            iterations: self.iterations,
        }
    }
}

/// The persisted configuration that the renderer's state mirrors.
#[derive(Debug)]
pub struct Settings {
    pub location: Location,
    pub image_width: u64,
    pub image_height: u64,
    pub approximation_order: u64,
    pub analytic_derivative: bool,
}

/// What the orchestration reads and writes of the live renderer.
#[derive(Debug)]
pub struct RendererState {
    /// The location shown; its `iterations` is the cap the image is coloured
    /// with.
    pub location: Location,
    pub image_width: u64,
    pub image_height: u64,
    pub approximation_order: u64,
    /// The zoom exponent at which the reference orbit was computed.
    pub reference_zoom_exponent: i64,
    /// The iteration count that the reference orbit and pixels were computed
    /// to.
    pub computed_iterations: u64,
    pub show_derivative: bool,
    /// Whether the analytic derivative was computed with the pixels.
    pub derivative_computed: bool,
}

/// The location fields that a loaded configuration file holds.
#[derive(Debug)]
pub struct LoadedLocation {
    pub real: Option<String>,
    pub imag: Option<String>,
    /// Zoom text and the exponent of its view scale.
    pub zoom: Option<(String, i64)>,
    pub iterations: Option<u64>,
    pub rotation: Option<String>,
    /// Whether the file defines a palette.
    pub palette: bool,
}

/// A client's request to change what is rendered.
#[derive(Debug)]
pub enum Intent {
    SetLocation(Location),
    SetIterations(u64),
    SetRotation(String),
    /// New zoom text and the exponent of its view scale.
    SetZoom(String, i64),
    SetImageSize(u64, u64),
    SetApproximationOrder(u64),
    ToggleDerivative,
    /// Palette, iteration division or palette offset changed.
    Recolor,
    /// A configuration file was opened.
    Load(LoadedLocation),
}

/// The least work that makes the image match the settings.
#[derive(Clone, Copy, Debug, PartialEq, Eq, Structural)]
pub enum Action {
    /// Nothing visible changed.
    Nothing,
    /// Recolour the pixels already computed and repaint.
    Repaint,
    Render(RenderMode),
}

pub const MIN_APPROXIMATION_ORDER: u64 = 4;

pub const MAX_APPROXIMATION_ORDER: u64 = 128;

/// The upper-case form of a text, as the standard library computes it.
pub uninterp spec fn upper_of(s: Seq<char>) -> Seq<char>;

/// Relies on str::to_uppercase, whose result depends on the characters alone.
#[verifier::external_body]
fn uppercase(s: &str) -> (r: String)
    ensures
        r@ == upper_of(s@),
{
    s.to_uppercase()
}

/// What a change of location calls for, given whether the zoom text is
/// unchanged (ignoring case), the zoom exponent of the reference orbit and the
/// iteration count it was computed to.
pub open spec fn location_action(
    current: Location,
    requested: Location,
    zoom_unchanged: bool,
    reference_zoom_exponent: i64,
    computed_iterations: u64,
) -> Action {
    if current.real@ != requested.real@ || current.imag@ != requested.imag@ {
        Action::Render(RenderMode::Full)
    } else if !zoom_unchanged {
        if requested.zoom_exponent >= reference_zoom_exponent && requested.iterations
            <= computed_iterations {
            Action::Render(RenderMode::Fast)
        } else {
            Action::Render(RenderMode::Full)
        }
    } else if current.rotation@ == requested.rotation@ && current.iterations
        == requested.iterations {
        Action::Nothing
    } else if requested.iterations > computed_iterations {
        Action::Render(RenderMode::Full)
    } else if current.rotation@ == requested.rotation@ {
        Action::Repaint
    } else {
        Action::Render(RenderMode::Fast)
    }
}

/// Decides what a change of location calls for; see `location_action`.
pub fn decide_location(
    current: &Location,
    requested: &Location,
    zoom_unchanged: bool,
    reference_zoom_exponent: i64,
    computed_iterations: u64,
) -> (r: Action)
    ensures
        r == location_action(
            *current,
            *requested,
            zoom_unchanged,
            reference_zoom_exponent,
            computed_iterations,
        ),
{
    if current.real != requested.real || current.imag != requested.imag {
        Action::Render(RenderMode::Full)
    } else if !zoom_unchanged {
        if requested.zoom_exponent >= reference_zoom_exponent && requested.iterations
            <= computed_iterations {
            Action::Render(RenderMode::Fast)
        } else {
            Action::Render(RenderMode::Full)
        }
    } else if current.rotation == requested.rotation && current.iterations
        == requested.iterations {
        Action::Nothing
    } else if requested.iterations > computed_iterations {
        Action::Render(RenderMode::Full)
    } else if current.rotation == requested.rotation {
        Action::Repaint
    } else {
        Action::Render(RenderMode::Fast)
    }
}

/// Whether two zoom texts are the same, ignoring case.
pub open spec fn same_zoom(a: Seq<char>, b: Seq<char>) -> bool {
    upper_of(a) == upper_of(b)
}

/// An approximation order held within the supported range.
pub open spec fn clamped_order(order: u64) -> u64 {
    if order > MAX_APPROXIMATION_ORDER {
        MAX_APPROXIMATION_ORDER
    } else if order < MIN_APPROXIMATION_ORDER {
        MIN_APPROXIMATION_ORDER
    } else {
        order
    }
}

/// Settings and renderer state agree on every field they share.
pub open spec fn agree(s: Settings, r: RendererState) -> bool {
    &&& s.location == r.location
    &&& s.image_width == r.image_width
    &&& s.image_height == r.image_height
    &&& s.approximation_order == r.approximation_order
    &&& s.analytic_derivative == r.show_derivative
}

/// The renderer state that a full render builds from the settings.
pub open spec fn rebuilt(s: Settings) -> RendererState {
    RendererState {
        location: s.location,
        image_width: s.image_width,
        image_height: s.image_height,
        approximation_order: s.approximation_order,
        reference_zoom_exponent: s.location.zoom_exponent,
        computed_iterations: s.location.iterations,
        show_derivative: s.analytic_derivative,
        derivative_computed: s.analytic_derivative,
    }
}

/// The settings store and the renderer state, changed together.
#[derive(Debug)]
pub struct Session {
    pub settings: Settings,
    pub renderer: RendererState,
    /// A full render was called for and has not finished: the renderer state
    /// is rebuilt from the settings when it does.
    pub awaiting_full: bool,
}

/// The location that an intent asks for, where it asks for one.
pub open spec fn requested_location(current: Location, intent: Intent) -> Option<Location> {
    match intent {
        Intent::SetLocation(l) => Some(l),
        Intent::SetIterations(n) => Some(Location { iterations: n, ..current }),
        Intent::SetRotation(t) => Some(Location { rotation: t, ..current }),
        Intent::SetZoom(z, e) => Some(Location { zoom: z, zoom_exponent: e, ..current }),
        _ => None,
    }
}

/// Whether a loaded file holds any location field.
pub open spec fn holds_location(f: LoadedLocation) -> bool {
    f.real.is_some() || f.imag.is_some() || f.zoom.is_some() || f.iterations.is_some()
        || f.rotation.is_some()
}

/// The current location with the fields that a loaded file holds replaced.
pub open spec fn loaded_location(current: Location, f: LoadedLocation) -> Location {
    Location {
        real: match f.real {
            Some(r) => r,
            None => current.real,
        },
        imag: match f.imag {
            Some(i) => i,
            None => current.imag,
        },
        zoom: match f.zoom {
            Some(z) => z.0,
            None => current.zoom,
        },
        zoom_exponent: match f.zoom {
            Some(z) => z.1,
            None => current.zoom_exponent,
        },
        rotation: match f.rotation {
            Some(t) => t,
            None => current.rotation,
        },
        iterations: match f.iterations {
            Some(n) => n,
            None => current.iterations,
        },
    }
}

/// Commits an action's location: into the settings always, into the renderer
/// at once unless a full render will rebuild it.
pub open spec fn with_location(s: Session, l: Location, a: Action) -> Session {
    match a {
        Action::Nothing => s,
        Action::Render(RenderMode::Full) => Session {
            settings: Settings { location: l, ..s.settings },
            awaiting_full: true,
            ..s
        },
        _ => Session {
            settings: Settings { location: l, ..s.settings },
            renderer: RendererState { location: l, ..s.renderer },
            ..s
        },
    }
}

/// The session after an intent, and the action it calls for.
pub open spec fn applied(s: Session, intent: Intent) -> (Session, Action) {
    let current = s.settings.location;
    match requested_location(current, intent) {
        Some(l) => {
            let a = location_action(
                current,
                l,
                same_zoom(current.zoom@, l.zoom@),
                s.renderer.reference_zoom_exponent,
                s.renderer.computed_iterations,
            );
            (with_location(s, l, a), a)
        },
        None => match intent {
            Intent::SetImageSize(w, h) => {
                if w == s.settings.image_width && h == s.settings.image_height {
                    (s, Action::Nothing)
                } else {
                    (
                        Session {
                            settings: Settings { image_width: w, image_height: h, ..s.settings },
                            renderer: RendererState {
                                image_width: w,
                                image_height: h,
                                ..s.renderer
                            },
                            ..s
                        },
                        Action::Render(RenderMode::Fast),
                    )
                }
            },
            Intent::SetApproximationOrder(o) => {
                let o = clamped_order(o);
                if o == s.settings.approximation_order {
                    (s, Action::Nothing)
                } else {
                    (
                        Session {
                            settings: Settings { approximation_order: o, ..s.settings },
                            renderer: RendererState { approximation_order: o, ..s.renderer },
                            ..s
                        },
                        Action::Render(RenderMode::Fast),
                    )
                }
            },
            Intent::ToggleDerivative => {
                let shown = !s.settings.analytic_derivative;
                (
                    Session {
                        settings: Settings { analytic_derivative: shown, ..s.settings },
                        renderer: RendererState {
                            show_derivative: shown,
                            derivative_computed: true,
                            ..s.renderer
                        },
                        ..s
                    },
                    if s.renderer.derivative_computed {
                        Action::Repaint
                    } else {
                        Action::Render(RenderMode::Fast)
                    },
                )
            },
            Intent::Load(f) => {
                if holds_location(f) {
                    let a = Action::Render(RenderMode::Full);
                    (with_location(s, loaded_location(current, f), a), a)
                } else if f.palette {
                    (s, Action::Repaint)
                } else {
                    (s, Action::Nothing)
                }
            },
            _ => (s, Action::Repaint),
        },
    }
}

/// The session once a render of `mode` has returned.
pub open spec fn finished(s: Session, mode: RenderMode) -> Session {
    if mode == RenderMode::Full {
        Session { renderer: rebuilt(s.settings), awaiting_full: false, ..s }
    } else {
        s
    }
}

impl Session {
    /// Unless a full render is due, the renderer state agrees with the
    /// settings, and never shows more iterations than it computed.
    pub open spec fn wf(self) -> bool {
        &&& !self.awaiting_full ==> agree(self.settings, self.renderer)
        &&& self.renderer.location.iterations <= self.renderer.computed_iterations
    }

    /// A session whose renderer state is built from `settings`.
    pub fn new(settings: Settings) -> (s: Session)
        ensures
            s.settings == settings,
            s.renderer == rebuilt(settings),
            !s.awaiting_full,
            s.wf(),
    {
        let renderer = RendererState {
            location: settings.location.copied(),
            image_width: settings.image_width,
            image_height: settings.image_height,
            approximation_order: settings.approximation_order,
            reference_zoom_exponent: settings.location.zoom_exponent,
            computed_iterations: settings.location.iterations,
            show_derivative: settings.analytic_derivative,
            derivative_computed: settings.analytic_derivative,
        };
        Session { settings, renderer, awaiting_full: false }
    }

    fn commit_location(&mut self, requested: Location) -> (a: Action)
        requires
            old(self).wf(),
        ensures
            a == location_action(
                old(self).settings.location,
                requested,
                same_zoom(old(self).settings.location.zoom@, requested.zoom@),
                old(self).renderer.reference_zoom_exponent,
                old(self).renderer.computed_iterations,
            ),
            *final(self) == with_location(*old(self), requested, a),
    {
        let current_zoom = uppercase(self.settings.location.zoom.as_str());
        let requested_zoom = uppercase(requested.zoom.as_str());
        let a = decide_location(
            &self.settings.location,
            &requested,
            current_zoom == requested_zoom,
            self.renderer.reference_zoom_exponent,
            self.renderer.computed_iterations,
        );
        match a {
            Action::Nothing => {},
            Action::Render(RenderMode::Full) => {
                self.settings.location = requested;
                self.awaiting_full = true;
            },
            _ => {
                self.renderer.location = requested.copied();
                self.settings.location = requested;
            },
        }
        a
    }

    /// Applies a client's intent to the settings and the renderer state, and
    /// returns the action it calls for.
    pub fn apply(&mut self, intent: Intent) -> (a: Action)
        requires
            old(self).wf(),
        ensures
            (*final(self), a) == applied(*old(self), intent),
            final(self).wf(),
    {
        match intent {
            Intent::SetLocation(l) => self.commit_location(l),
            Intent::SetIterations(n) => {
                let mut l = self.settings.location.copied();
                l.iterations = n;
                self.commit_location(l)
            },
            Intent::SetRotation(t) => {
                let mut l = self.settings.location.copied();
                l.rotation = t;
                self.commit_location(l)
            },
            Intent::SetZoom(z, e) => {
                let mut l = self.settings.location.copied();
                l.zoom = z;
                l.zoom_exponent = e;
                self.commit_location(l)
            },
            Intent::SetImageSize(w, h) => {
                if w == self.settings.image_width && h == self.settings.image_height {
                    Action::Nothing
                } else {
                    self.settings.image_width = w;
                    self.settings.image_height = h;
                    self.renderer.image_width = w;
                    self.renderer.image_height = h;
                    Action::Render(RenderMode::Fast)
                }
            },
            Intent::SetApproximationOrder(o) => {
                let o = if o > MAX_APPROXIMATION_ORDER {
                    MAX_APPROXIMATION_ORDER
                } else if o < MIN_APPROXIMATION_ORDER {
                    MIN_APPROXIMATION_ORDER
                } else {
                    o
                };
                if o == self.settings.approximation_order {
                    Action::Nothing
                } else {
                    self.settings.approximation_order = o;
                    self.renderer.approximation_order = o;
                    Action::Render(RenderMode::Fast)
                }
            },
            Intent::ToggleDerivative => {
                let shown = !self.settings.analytic_derivative;
                self.settings.analytic_derivative = shown;
                self.renderer.show_derivative = shown;
                if self.renderer.derivative_computed {
                    Action::Repaint
                } else {
                    self.renderer.derivative_computed = true;
                    Action::Render(RenderMode::Fast)
                }
            },
            Intent::Recolor => Action::Repaint,
            Intent::Load(f) => {
                let any = f.real.is_some() || f.imag.is_some() || f.zoom.is_some()
                    || f.iterations.is_some() || f.rotation.is_some();
                if any {
                    let current = &self.settings.location;
                    let (zoom, zoom_exponent) = match f.zoom {
                        Some(z) => z,
                        None => (current.zoom.clone(), current.zoom_exponent),
                    };
                    let l = Location {
                        real: match f.real {
                            Some(r) => r,
                            None => current.real.clone(),
                        },
                        imag: match f.imag {
                            Some(i) => i,
                            None => current.imag.clone(),
                        },
                        zoom,
                        zoom_exponent,
                        rotation: match f.rotation {
                            Some(t) => t,
                            None => current.rotation.clone(),
                        },
                        iterations: match f.iterations {
                            Some(n) => n,
                            None => current.iterations,
                        },
                    };
                    self.settings.location = l;
                    self.awaiting_full = true;
                    Action::Render(RenderMode::Full)
                } else if f.palette {
                    Action::Repaint
                } else {
                    Action::Nothing
                }
            },
        }
    }

    /// Records that a render of `mode` returned: a full render rebuilds the
    /// renderer state from the settings.
    pub fn render_finished(&mut self, mode: RenderMode)
        requires
            old(self).wf(),
        ensures
            *final(self) == finished(*old(self), mode),
            final(self).wf(),
    {
        if mode == RenderMode::Full {
            self.renderer = RendererState {
                location: self.settings.location.copied(),
                image_width: self.settings.image_width,
                image_height: self.settings.image_height,
                approximation_order: self.settings.approximation_order,
                reference_zoom_exponent: self.settings.location.zoom_exponent,
                computed_iterations: self.settings.location.iterations,
                show_derivative: self.settings.analytic_derivative,
                derivative_computed: self.settings.analytic_derivative,
            };
            self.awaiting_full = false;
        }
    }
}

/// A zoom change on an unmoved centre reuses the reference orbit exactly when
/// the new zoom exponent is at least the reference's; a moved centre always
/// rebuilds it, whichever way the zoom went.
pub proof fn lemma_zoom_policy(
    current: Location,
    requested: Location,
    reference_zoom_exponent: i64,
    computed_iterations: u64,
)
    requires
        !same_zoom(current.zoom@, requested.zoom@),
        requested.iterations == current.iterations,
        current.iterations <= computed_iterations,
    ensures
        ({
            let a = location_action(
                current,
                requested,
                same_zoom(current.zoom@, requested.zoom@),
                reference_zoom_exponent,
                computed_iterations,
            );
            let moved = current.real@ != requested.real@ || current.imag@ != requested.imag@;
            &&& !moved && requested.zoom_exponent >= reference_zoom_exponent ==> a
                == Action::Render(RenderMode::Fast)
            &&& !moved && requested.zoom_exponent < reference_zoom_exponent ==> a
                == Action::Render(RenderMode::Full)
            &&& moved ==> a == Action::Render(RenderMode::Full)
        }),
{
}

/// Lowering the iteration cap to at most what was computed only recolours;
/// raising it past that always calls for a full render.
pub proof fn lemma_iterations_policy(s: Session, n: u64)
    requires
        s.wf(),
        !s.awaiting_full,
        n != s.settings.location.iterations,
    ensures
        n <= s.renderer.computed_iterations ==> applied(s, Intent::SetIterations(n)).1
            == Action::Repaint,
        n > s.renderer.computed_iterations ==> applied(s, Intent::SetIterations(n)).1
            == Action::Render(RenderMode::Full),
{
    let l = s.settings.location;
    assert(same_zoom(l.zoom@, l.zoom@));
}

/// Once the render or recolouring that a committed change calls for has
/// finished, the settings and the renderer state agree on every shared field,
/// whatever the change. A fast render may be run as a full one.
pub proof fn lemma_commit_round_trip(s: Session, intent: Intent, mode: RenderMode)
    requires
        s.wf(),
        !s.awaiting_full,
        applied(s, intent).1 == Action::Render(RenderMode::Full) ==> mode == RenderMode::Full,
    ensures
        ({
            let t = finished(applied(s, intent).0, mode);
            agree(t.settings, t.renderer) && t.wf() && !t.awaiting_full
        }),
{
}

} // verus!
