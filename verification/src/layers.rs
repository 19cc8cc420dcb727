use vstd::prelude::*;
use bevy::render::view::{Layer, RenderLayers};

verus! {

/// `bevy::render::view::RenderLayers`: the set of rendering layers that a
/// camera looks at or that an entity belongs to. Nothing inside it is visible
/// to the verifier.
#[verifier::external_type_specification]
#[verifier::external_body]
pub struct ExRenderLayers(bevy::render::view::RenderLayers);

/// The indices of the layers that a `RenderLayers` value holds.
pub uninterp spec fn layers_of(layers: RenderLayers) -> Set<int>;

/// Two layer sets intersect when some layer belongs to both.
pub open spec fn layers_intersect(a: RenderLayers, b: RenderLayers) -> bool {
    exists|n: int| #[trigger] layers_of(a).contains(n) && layers_of(b).contains(n)
}

/// `RenderLayers::layer`: assumed to return the set that holds the layer `n`
/// and no other. The function panics from layer 32 on, which `requires` leaves
/// out.
pub assume_specification[ RenderLayers::layer ](n: Layer) -> (layers: RenderLayers)
    requires
        n < 32,
    ensures
        layers_of(layers) == set![n as int],
;

/// `RenderLayers::intersects`: assumed to tell whether the two sets share a
/// layer; an empty set intersects nothing, itself included.
pub assume_specification[ RenderLayers::intersects ](
    a: &RenderLayers,
    b: &RenderLayers,
) -> (hit: bool)
    ensures
        hit == layers_intersect(*a, *b),
;

/// `RenderLayers::TOTAL_LAYERS`: assumed to be 32, the number of bits of the
/// mask behind a `RenderLayers`.
#[verifier::external_body]
fn total_layers() -> (total: usize)
    ensures
        total == 32,
{
    RenderLayers::TOTAL_LAYERS
}

/// The layer of the 3-D scene: layer 0, where an entity without a layer tag
/// lives.
pub fn scene_layers() -> (layers: RenderLayers)
    ensures
        layers_of(layers) == set![0int],
{
    RenderLayers::layer(0)
}

/// The layer of the post-processing pass: the last layer there is.
pub fn post_process_layers() -> (layers: RenderLayers)
    ensures
        layers_of(layers) == set![31int],
{
    let total: usize = total_layers();
    RenderLayers::layer((total - 1) as u8)
}

/// Whether a camera that looks at `camera` draws an entity tagged `entity`.
pub fn draws(camera: &RenderLayers, entity: &RenderLayers) -> (drawn: bool)
    ensures
        drawn == layers_intersect(*camera, *entity),
{
    camera.intersects(entity)
}

/// Two single-layer sets intersect exactly when they name the same layer.
pub proof fn lemma_single_layers_intersect(a: RenderLayers, b: RenderLayers, m: int, n: int)
    requires
        layers_of(a) == set![m],
        layers_of(b) == set![n],
    ensures
        layers_intersect(a, b) <==> m == n,
{
    if m == n {
        assert(layers_of(a).contains(m) && layers_of(b).contains(m));
    }
}

} // verus!
