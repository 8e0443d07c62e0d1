//! A window surface and the configuration it should have, reconfigured
//! only when that configuration changed and covers a non-empty area.

use vstd::prelude::*;
use wgpu::{CommandBuffer, PresentMode, Surface, SurfaceTexture};

verus! {

#[verifier::external_type_specification]
#[verifier::external_body]
pub struct ExSurface(wgpu::Surface);

#[verifier::external_type_specification]
#[verifier::external_body]
pub struct ExPresentMode(wgpu::PresentMode);

#[verifier::external_type_specification]
#[verifier::external_body]
pub struct ExSurfaceTexture(wgpu::SurfaceTexture);

#[verifier::external_type_specification]
#[verifier::external_body]
pub struct ExCommandBuffer(wgpu::CommandBuffer);

/// `==` on `wgpu::PresentMode`, a field-less enum whose `PartialEq` is
/// derived. Claimed: the result is whether the two modes are the same.
#[verifier::external_body]
fn same_present_mode(a: &PresentMode, b: &PresentMode) -> (same: bool)
    ensures
        same == (*a == *b),
{
    *a == *b
}

/// A value together with a note of whether it changed since it was last
/// checked.
#[derive(Debug)]
pub struct Observable<T> {
    value: T,
    changed: bool,
}

impl<T> Observable<T> {
    /// The value.
    pub closed spec fn value(&self) -> T {
        self.value
    }

    /// Whether the value changed since it was last checked.
    pub closed spec fn is_changed(&self) -> bool {
        self.changed
    }

    /// A new value, which counts as changed.
    pub fn new(value: T) -> (this: Self)
        ensures
            this.value() == value,
            this.is_changed(),
    {
        Self { value, changed: true }
    }

    /// The value.
    pub fn get(&self) -> (value: &T)
        ensures
            *value == self.value(),
    {
        &self.value
    }

    /// Whether the value changed since it was last checked; it then counts
    /// as checked.
    pub fn invalidate(this: &mut Self) -> (changed: bool)
        ensures
            changed == old(this).is_changed(),
            final(this).value() == old(this).value(),
            !final(this).is_changed(),
    {
        let changed = this.changed;
        this.changed = false;
        changed
    }
}

/// The size in physical pixels of the screen area a surface covers.
#[derive(Debug, Clone, Copy, PartialEq, Eq, Structural)]
pub struct ScreenSize {
    pub width: u32,
    pub height: u32,
}

impl ScreenSize {
    /// Whether the area is positive.
    pub fn has_area(&self) -> (positive: bool)
        ensures
            positive == (self.width as int * self.height as int > 0),
            positive == (self.width > 0 && self.height > 0),
    {
        assert(self.width as int * self.height as int > 0 <==> (self.width > 0 && self.height > 0))
            by (nonlinear_arith);
        self.width > 0 && self.height > 0
    }
}

/// How a surface should be presented: its present mode and the screen
/// area it covers.
#[derive(Debug, Clone, Copy)]
pub struct SurfaceConfiguration {
    pub present_mode: PresentMode,
    pub screen: ScreenSize,
}

impl PartialEq for SurfaceConfiguration {
    /// Whether `self` and `other` are the same configuration.
    fn eq(&self, other: &SurfaceConfiguration) -> (same: bool) {
        same_present_mode(&self.present_mode, &other.present_mode) && self.screen == other.screen
    }
}

impl vstd::std_specs::cmp::PartialEqSpecImpl for SurfaceConfiguration {
    open spec fn obeys_eq_spec() -> bool {
        true
    }

    open spec fn eq_spec(&self, other: &SurfaceConfiguration) -> bool {
        *self == *other
    }
}

/// A surface texture to draw into and the commands that draw the frame.
#[derive(Debug)]
pub struct SurfaceRenderResult {
    pub surface_texture: SurfaceTexture,
    pub command_buffer: CommandBuffer,
}

/// What a surface renderer holds: its surface, the configuration the
/// surface should have, and whether that configuration is still to be
/// applied.
pub struct SurfaceState {
    pub surface: Surface,
    pub configuration: SurfaceConfiguration,
    pub needs_configure: bool,
}

/// A call that changes a surface renderer.
pub enum SurfaceStep {
    /// `set_configuration` with this configuration.
    SetConfiguration(SurfaceConfiguration),
    /// `pending_configuration`.
    TakePending,
}

/// Whether `configuration` covers a positive area.
pub open spec fn has_positive_area(configuration: SurfaceConfiguration) -> bool {
    configuration.screen.width as int * configuration.screen.height as int > 0
}

/// The configuration that `pending_configuration` hands out in `state`.
pub open spec fn pending_for(state: SurfaceState) -> Option<SurfaceConfiguration> {
    if state.needs_configure && has_positive_area(state.configuration) {
        Some(state.configuration)
    } else {
        None
    }
}

/// The state after `step`.
pub open spec fn after_step(state: SurfaceState, step: SurfaceStep) -> SurfaceState {
    match step {
        SurfaceStep::SetConfiguration(c) => SurfaceState {
            surface: state.surface,
            configuration: c,
            needs_configure: state.needs_configure || state.configuration != c,
        },
        SurfaceStep::TakePending => SurfaceState { needs_configure: false, ..state },
    }
}

/// The state after `steps`, in order.
pub open spec fn after_steps(state: SurfaceState, steps: Seq<SurfaceStep>) -> SurfaceState
    decreases steps.len(),
{
    if steps.len() == 0 {
        state
    } else {
        after_step(after_steps(state, steps.drop_last()), steps.last())
    }
}

/// No call changes the surface of a renderer, so `into_inner` gives back
/// the surface it was made with.
pub proof fn lemma_surface_is_kept(state: SurfaceState, steps: Seq<SurfaceStep>)
    ensures
        after_steps(state, steps).surface == state.surface,
    decreases steps.len(),
{
    if steps.len() > 0 {
        lemma_surface_is_kept(state, steps.drop_last());
    }
}

/// Once the configuration is applied, setting only configurations equal to
/// it, and taking the pending configuration, never hands out a
/// configuration to apply again.
pub proof fn lemma_equal_configurations_need_no_configure(state: SurfaceState, steps: Seq<SurfaceStep>)
    requires
        !state.needs_configure,
        forall|i: int|
            0 <= i < steps.len() ==> (#[trigger] steps[i] matches SurfaceStep::SetConfiguration(c)
                ==> c == state.configuration),
    ensures
        !after_steps(state, steps).needs_configure,
        after_steps(state, steps).configuration == state.configuration,
        pending_for(after_steps(state, steps)) is None,
    decreases steps.len(),
{
    if steps.len() > 0 {
        let rest = steps.drop_last();
        assert forall|i: int|
            0 <= i < rest.len() implies (#[trigger] rest[i] matches SurfaceStep::SetConfiguration(c)
                ==> c == state.configuration) by {
            assert(rest[i] == steps[i]);
        }
        lemma_equal_configurations_need_no_configure(state, rest);
        assert(steps[steps.len() - 1] == steps.last());
    }
}

/// A surface and the configuration it should have.
#[derive(Debug)]
pub struct StoryboardSurfaceRenderer {
    surface: Surface,
    configuration: Observable<SurfaceConfiguration>,
}

impl StoryboardSurfaceRenderer {
    /// The surface.
    pub closed spec fn surface(&self) -> Surface {
        self.surface
    }

    /// The configuration the surface should have.
    pub closed spec fn current_configuration(&self) -> SurfaceConfiguration {
        self.configuration.value()
    }

    /// Whether the configuration changed since the surface was last
    /// configured.
    pub closed spec fn needs_configure(&self) -> bool {
        self.configuration.is_changed()
    }

    /// What the renderer holds.
    pub closed spec fn state(&self) -> SurfaceState {
        SurfaceState {
            surface: self.surface,
            configuration: self.configuration.value(),
            needs_configure: self.configuration.is_changed(),
        }
    }

    /// A renderer for `surface`, which is configured with `configuration`
    /// before its first frame.
    pub fn new(surface: Surface, configuration: SurfaceConfiguration) -> (this: Self)
        ensures
            this.surface() == surface,
            this.current_configuration() == configuration,
            this.needs_configure(),
            this.state() == (SurfaceState { surface, configuration, needs_configure: true }),
    {
        Self { surface, configuration: Observable::new(configuration) }
    }

    /// The configuration the surface should have.
    pub fn configuration(&self) -> (configuration: SurfaceConfiguration)
        ensures
            configuration == self.current_configuration(),
    {
        *self.configuration.get()
    }

    /// Sets the configuration the surface should have. A configuration equal
    /// to the current one changes nothing; another one is configured before
    /// the next frame.
    pub fn set_configuration(&mut self, configuration: SurfaceConfiguration)
        ensures
            final(self).surface() == old(self).surface(),
            final(self).current_configuration() == configuration,
            final(self).needs_configure() == (old(self).needs_configure()
                || old(self).current_configuration() != configuration),
            final(self).state() == after_step(
                old(self).state(),
                SurfaceStep::SetConfiguration(configuration),
            ),
    {
        if self.configuration.get().ne(&configuration) {
            self.configuration = Observable::new(configuration);
        }
    }

    /// The configuration to apply to the surface before drawing the next
    /// frame: the current configuration if it changed since it was last
    /// applied and covers a positive area, `None` otherwise. Either way it
    /// counts as applied afterwards.
    pub fn pending_configuration(&mut self) -> (pending: Option<SurfaceConfiguration>)
        ensures
            pending == (if old(self).needs_configure() && old(
                self,
            ).current_configuration().screen.width as int * old(
                self,
            ).current_configuration().screen.height as int > 0 {
                Some(old(self).current_configuration())
            } else {
                None
            }),
            !final(self).needs_configure(),
            final(self).current_configuration() == old(self).current_configuration(),
            final(self).surface() == old(self).surface(),
            pending == pending_for(old(self).state()),
            final(self).state() == after_step(old(self).state(), SurfaceStep::TakePending),
    {
        if Observable::invalidate(&mut self.configuration)
            && self.configuration.get().screen.has_area()
        {
            Some(*self.configuration.get())
        } else {
            None
        }
    }

    /// The surface.
    pub fn surface_ref(&self) -> (surface: &Surface)
        ensures
            *surface == self.surface(),
    {
        &self.surface
    }

    /// The surface.
    pub fn into_inner(self) -> (surface: Surface)
        ensures
            surface == self.surface(),
            surface == self.state().surface,
    {
        self.surface
    }
}

} // verus!
