//! The renderer's bookkeeping: a state machine with two states, ready and
//! disposed, that decides what each host call does. The host performs the
//! GPU work that a decision names and passes in the clock reading.

use vstd::prelude::*;

use crate::geometry::{generate, polygon_point, polygon_sides, PolygonMesh, VERTICES_PER_POLYGON};

verus! {

/// Why a renderer call was refused.
#[derive(Clone, Copy, Debug, PartialEq, Eq, Structural)]
pub enum RenderError {
    /// The renderer has released its resources; nothing more can be done with it.
    Disposed,
}

/// One triangle-fan draw: `count` vertices from vertex `first` on.
#[derive(Clone, Copy, Debug, PartialEq, Eq, Structural)]
pub struct DrawCall {
    pub first: u64,
    pub count: u64,
}

/// What one frame does. Times are in microseconds of the host clock.
pub struct Frame {
    /// Time since the renderer was created, for the time uniform.
    pub elapsed_us: i128,
    /// Time since the previous drawn frame, handed back to the caller.
    pub delta_us: i128,
    /// Viewport size; the aspect-ratio uniform is `width / height`.
    pub width: u32,
    pub height: u32,
    /// Value of the element-count uniform.
    pub element_count: u32,
    /// The draws, in order.
    pub draws: Vec<DrawCall>,
}

/// The outcome of a render call.
pub enum FramePlan {
    /// Nothing is active: no GPU call at all, and a frame time of zero.
    Idle,
    /// Set the uniforms, clear, and issue the draws.
    Draw(Frame),
}

/// The renderer's state as the contracts see it.
pub struct RenderModel {
    pub start_time: int,
    pub last_frame_time: int,
    pub width: nat,
    pub height: nat,
    pub element_count: nat,
    pub disposed: bool,
}

/// The draw for polygon `i`: its fan starts at `i * VERTICES_PER_POLYGON`.
pub open spec fn fan_draw(i: int) -> DrawCall {
    DrawCall { first: (i * VERTICES_PER_POLYGON) as u64, count: VERTICES_PER_POLYGON }
}

/// One draw per polygon, in polygon order.
pub open spec fn fan_draws(count: nat) -> Seq<DrawCall> {
    Seq::new(count, |i: int| fan_draw(i))
}

impl RenderModel {
    /// The answer to any call but `dispose`: refused once disposed.
    pub open spec fn live_check(self) -> Result<(), RenderError> {
        if self.disposed {
            Err(RenderError::Disposed)
        } else {
            Ok(())
        }
    }

    pub open spec fn after_configure(self, count: nat) -> RenderModel {
        if self.disposed {
            self
        } else {
            RenderModel { element_count: count, ..self }
        }
    }

    pub open spec fn after_resize(self, width: nat, height: nat) -> RenderModel {
        if self.disposed {
            self
        } else {
            RenderModel { width, height, ..self }
        }
    }

    pub open spec fn after_dispose(self) -> RenderModel {
        RenderModel { disposed: true, ..self }
    }

    /// A render call that draws nothing and reports zero.
    pub open spec fn renders_idle(self) -> bool {
        !self.disposed && self.element_count == 0
    }

    pub open spec fn after_render(self, now: int) -> RenderModel {
        if self.disposed || self.element_count == 0 {
            self
        } else {
            RenderModel { last_frame_time: now, ..self }
        }
    }

    /// `f` is the frame drawn at clock reading `now`.
    pub open spec fn is_frame(self, now: int, f: Frame) -> bool {
        &&& f.elapsed_us == now - self.start_time
        &&& f.delta_us == now - self.last_frame_time
        &&& f.width == self.width
        &&& f.height == self.height
        &&& f.element_count == self.element_count
        &&& f.draws@ == fan_draws(self.element_count)
    }
}

/// The renderer's state: clock readings, viewport, active polygon count and
/// whether it has been disposed.
pub struct RenderState {
    start_time: i64,
    last_frame_time: i64,
    width: u32,
    height: u32,
    element_count: u32,
    disposed: bool,
}

impl View for RenderState {
    type V = RenderModel;

    closed spec fn view(&self) -> RenderModel {
        RenderModel {
            start_time: self.start_time as int,
            last_frame_time: self.last_frame_time as int,
            width: self.width as nat,
            height: self.height as nat,
            element_count: self.element_count as nat,
            disposed: self.disposed,
        }
    }
}

impl RenderState {
    /// A ready renderer for a `width` x `height` viewport, created at clock
    /// reading `now`, with nothing to draw.
    pub fn new(width: u32, height: u32, now: i64) -> (r: RenderState)
        ensures
            r@ == (RenderModel {
                start_time: now as int,
                last_frame_time: now as int,
                width: width as nat,
                height: height as nat,
                element_count: 0,
                disposed: false,
            }),
    {
        RenderState {
            start_time: now,
            last_frame_time: now,
            width,
            height,
            element_count: 0,
            disposed: false,
        }
    }

    /// Number of polygons that a frame draws.
    pub fn get_element_count(&self) -> (r: u32)
        ensures
            r == self@.element_count,
    {
        self.element_count
    }

    pub fn is_disposed(&self) -> (r: bool)
        ensures
            r == self@.disposed,
    {
        self.disposed
    }

    /// Whether a call may go ahead: refused once disposed. A clear of the
    /// canvas is this check and nothing more.
    pub fn check_live(&self) -> (r: Result<(), RenderError>)
        ensures
            r == self@.live_check(),
    {
        if self.disposed {
            Err(RenderError::Disposed)
        } else {
            Ok(())
        }
    }

    /// The mesh to upload for `count` polygons, unless disposed.
    pub fn prepare(&self, count: u32) -> (r: Result<PolygonMesh, RenderError>)
        requires
            count * VERTICES_PER_POLYGON <= usize::MAX,
        ensures
            self@.disposed ==> r == Err::<PolygonMesh, _>(RenderError::Disposed),
            !self@.disposed ==> (r matches Ok(mesh) && mesh.is_row(count as int)),
    {
        if self.disposed {
            Err(RenderError::Disposed)
        } else {
            Ok(generate(count))
        }
    }

    /// Makes `count` the number of active polygons, replacing the previous one.
    pub fn configure(&mut self, count: u32) -> (r: Result<(), RenderError>)
        ensures
            r == old(self)@.live_check(),
            final(self)@ == old(self)@.after_configure(count as nat),
    {
        if self.disposed {
            return Err(RenderError::Disposed);
        }
        self.element_count = count;
        Ok(())
    }

    /// Records a new viewport size.
    pub fn resize(&mut self, width: u32, height: u32) -> (r: Result<(), RenderError>)
        ensures
            r == old(self)@.live_check(),
            final(self)@ == old(self)@.after_resize(width as nat, height as nat),
    {
        if self.disposed {
            return Err(RenderError::Disposed);
        }
        self.width = width;
        self.height = height;
        Ok(())
    }

    /// Marks the renderer disposed; true when its resources are to be
    /// released now, false when that already happened.
    pub fn dispose(&mut self) -> (release: bool)
        ensures
            release == !old(self)@.disposed,
            final(self)@ == old(self)@.after_dispose(),
    {
        if self.disposed {
            return false;
        }
        self.disposed = true;
        true
    }

    /// Plans the frame at clock reading `now`.
    pub fn render(&mut self, now: i64) -> (r: Result<FramePlan, RenderError>)
        ensures
            old(self)@.disposed ==> r == Err::<FramePlan, _>(RenderError::Disposed),
            old(self)@.renders_idle() ==> r == Ok::<_, RenderError>(FramePlan::Idle),
            !old(self)@.disposed && !old(self)@.renders_idle() ==> (r matches Ok(
                FramePlan::Draw(f),
            ) && old(self)@.is_frame(now as int, f)),
            final(self)@ == old(self)@.after_render(now as int),
    {
        if self.disposed {
            return Err(RenderError::Disposed);
        }
        if self.element_count == 0 {
            return Ok(FramePlan::Idle);
        }
        let elapsed_us = now as i128 - self.start_time as i128;
        let delta_us = now as i128 - self.last_frame_time as i128;
        self.last_frame_time = now;
        let mut draws: Vec<DrawCall> = Vec::new();
        for i in 0..self.element_count
            invariant
                draws@.len() == i,
                forall|k: int| 0 <= k < i ==> #[trigger] draws@[k] == fan_draw(k),
        {
            draws.push(DrawCall { first: i as u64 * VERTICES_PER_POLYGON, count: VERTICES_PER_POLYGON });
        }
        assert(draws@ =~= fan_draws(self.element_count as nat));
        Ok(
            FramePlan::Draw(
                Frame {
                    elapsed_us,
                    delta_us,
                    width: self.width,
                    height: self.height,
                    element_count: self.element_count,
                    draws,
                },
            ),
        )
    }
}

/// Disposal is final: once disposed, configure, resize, clear and render are
/// refused with the disposed error and change nothing, and disposing again
/// changes nothing either.
pub proof fn lemma_dispose_is_final(s: RenderModel, count: nat, width: nat, height: nat, now: int)
    ensures
        s.after_dispose().disposed,
        s.after_dispose().live_check() == Err::<(), _>(RenderError::Disposed),
        s.after_dispose().after_configure(count) == s.after_dispose(),
        s.after_dispose().after_resize(width, height) == s.after_dispose(),
        s.after_dispose().after_render(now) == s.after_dispose(),
        s.after_dispose().after_dispose() == s.after_dispose(),
{
}

/// Configuring zero polygons on a ready renderer makes the next render idle:
/// no draws, a zero frame time, and no change of state.
pub proof fn lemma_configure_zero_renders_idle(s: RenderModel, now: int)
    requires
        !s.disposed,
    ensures
        s.after_configure(0).renders_idle(),
        s.after_configure(0).after_render(now) == s.after_configure(0),
{
}

/// Configuring replaces: after `configure(n)` and then `configure(m)` the
/// active count is `m`, as if `configure(n)` had never happened.
pub proof fn lemma_configure_replaces(s: RenderModel, n: nat, m: nat)
    ensures
        s.after_configure(n).after_configure(m) == s.after_configure(m),
        !s.disposed ==> s.after_configure(n).after_configure(m).element_count == m,
{
}

/// The draws of a frame find their polygons: in a row of `count` polygons,
/// draw `k` covers exactly the fan of polygon `k`, from its centre on.
pub proof fn lemma_draws_cover_polygons(mesh: PolygonMesh, count: nat, k: int)
    requires
        mesh.is_row(count as int),
        count <= u32::MAX,
        0 <= k < count,
    ensures
        fan_draws(count)[k].first + fan_draws(count)[k].count <= mesh.positions@.len(),
        forall|j: int|
            0 <= j < fan_draws(count)[k].count ==> {
                let v = fan_draws(count)[k].first + j;
                &&& mesh.positions@[v] == #[trigger] polygon_point(polygon_sides(k), j)
                &&& mesh.instance_indices@[v] == k
                &&& mesh.side_counts@[v] == polygon_sides(k)
            },
{
    let d = fan_draws(count)[k];
    assert((k + 1) * VERTICES_PER_POLYGON <= count * VERTICES_PER_POLYGON) by (nonlinear_arith)
        requires
            k + 1 <= count,
    ;
    assert(k * VERTICES_PER_POLYGON < 0x1_0000_0000_0000_0000) by (nonlinear_arith)
        requires
            0 <= k < 0x1_0000_0000,
    ;
    assert forall|j: int| 0 <= j < d.count implies {
        let v = d.first + j;
        &&& mesh.positions@[v] == #[trigger] polygon_point(polygon_sides(k), j)
        &&& mesh.instance_indices@[v] == k
        &&& mesh.side_counts@[v] == polygon_sides(k)
    } by {
        let v = d.first + j;
        vstd::arithmetic::div_mod::lemma_fundamental_div_mod_converse(
            v,
            VERTICES_PER_POLYGON as int,
            k,
            j,
        );
    }
}

} // verus!
