//! Where the reflectors of a reflectivity model sit.
use vstd::prelude::*;

verus! {

/// Why a reflectivity model could not be laid out.
#[derive(Clone, Copy, Debug, PartialEq, Eq, Structural)]
pub enum ModelError {
    /// The layer positions and the reflection coefficients differ in number.
    MismatchedLayerCounts { positions: usize, coefficients: usize },
    /// A wedge model was asked for with no layers.
    NoLayers,
}

/// The layer whose coefficient ends up at sample `k` when the layers of
/// `positions` are written in order: the last one placed there, if any.
pub open spec fn layer_at(positions: Seq<usize>, k: int) -> Option<usize>
    decreases positions.len(),
{
    if positions.len() == 0 {
        None
    } else if positions.last() == k {
        Some((positions.len() - 1) as usize)
    } else {
        layer_at(positions.drop_last(), k)
    }
}

/// For each of `length` samples, the index of the layer whose reflection
/// coefficient it carries (`None`: the sample stays zero). Layers are written
/// in order, a later one overriding an earlier one at the same position, and
/// positions at or past `length` are ignored. Fails when the counts of
/// positions and of coefficients differ.
pub fn layer_placement(length: usize, positions: &Vec<usize>, n_coefficients: usize) -> (r: Result<
    Vec<Option<usize>>,
    ModelError,
>)
    ensures
        r is Err <==> positions@.len() != n_coefficients,
        r matches Err(e) ==> e == (ModelError::MismatchedLayerCounts {
            positions: positions@.len() as usize,
            coefficients: n_coefficients,
        }),
        r matches Ok(slots) ==> {
            &&& slots@.len() == length
            &&& forall|k: int| 0 <= k < length ==> #[trigger] slots@[k] == layer_at(positions@, k)
        },
{
    if positions.len() != n_coefficients {
        return Err(
            ModelError::MismatchedLayerCounts { positions: positions.len(), coefficients: n_coefficients },
        );
    }
    let mut slots: Vec<Option<usize>> = Vec::new();
    let mut k: usize = 0;
    while k < length
        invariant
            k <= length,
            slots@.len() == k,
            forall|m: int| 0 <= m < k ==> #[trigger] slots@[m] is None,
        decreases length - k,
    {
        slots.push(None);
        k = k + 1;
    }
    let mut j: usize = 0;
    while j < positions.len()
        invariant
            j <= positions@.len(),
            slots@.len() == length,
            forall|m: int|
                0 <= m < length ==> #[trigger] slots@[m] == layer_at(positions@.subrange(0, j as int), m),
        decreases positions@.len() - j,
    {
        let p = positions[j];
        proof {
            let prefix = positions@.subrange(0, j as int + 1);
            assert(prefix.drop_last() =~= positions@.subrange(0, j as int));
            assert(prefix.last() == p);
        }
        if p < length {
            slots.set(p, Some(j));
        }
        j = j + 1;
    }
    assert(positions@.subrange(0, positions@.len() as int) =~= positions@);
    Ok(slots)
}

/// Positions of `count` evenly spaced reflectors at `spacing`, `2 * spacing`,
/// ..., `count * spacing`, keeping those before `length`.
pub open spec fn layered_positions_spec(length: nat, count: nat, spacing: nat) -> Seq<usize>
    decreases count,
{
    if count == 0 {
        seq![]
    } else {
        let earlier = layered_positions_spec(length, (count - 1) as nat, spacing);
        if count * spacing < length {
            earlier.push((count * spacing) as usize)
        } else {
            earlier
        }
    }
}

/// Positions of the reflectors of an evenly layered model: `i * spacing` for
/// `i` in `1..=num_layers`, in that order, those before `length` only.
pub fn layered_positions(length: usize, num_layers: usize, spacing: usize) -> (r: Vec<usize>)
    ensures
        r@ == layered_positions_spec(length as nat, num_layers as nat, spacing as nat),
{
    let mut positions: Vec<usize> = Vec::new();
    let mut i: usize = 0;
    while i < num_layers
        invariant
            i <= num_layers,
            positions@ == layered_positions_spec(length as nat, i as nat, spacing as nat),
        decreases num_layers - i,
    {
        i = i + 1;
        match i.checked_mul(spacing) {
            Some(p) => {
                if p < length {
                    positions.push(p);
                }
            },
            None => {},
        }
    }
    positions
}

/// Positions of a wedge model's reflectors from the `i`-th on, when that one
/// would sit at `position`: each gap exceeds the first by `i * (spacing / 4)`,
/// and the walk stops at `count` layers or at the model's end.
pub open spec fn wedge_walk(length: nat, count: nat, spacing: nat, i: nat, position: nat) -> Seq<
    usize,
>
    decreases count - i,
{
    if i >= count || position >= length {
        seq![]
    } else {
        seq![position as usize] + wedge_walk(
            length,
            count,
            spacing,
            i + 1,
            position + spacing + i * (spacing / 4),
        )
    }
}

proof fn lemma_wedge_walk_past_end(length: nat, count: nat, spacing: nat, i: nat, position: nat)
    requires
        position >= length,
    ensures
        wedge_walk(length, count, spacing, i, position) == Seq::<usize>::empty(),
{
}

/// Positions of the reflectors of a wedge model, whose layers thicken with
/// depth: the first at `spacing`, each next one `spacing + i * (spacing / 4)`
/// past the `i`-th, stopping at `num_layers` layers or at `length`. Fails when
/// `num_layers` is zero.
pub fn wedge_positions(length: usize, num_layers: usize, spacing: usize) -> (r: Result<
    Vec<usize>,
    ModelError,
>)
    ensures
        r is Err <==> num_layers == 0,
        r matches Err(e) ==> e == ModelError::NoLayers,
        r matches Ok(ps) ==> ps@ == wedge_walk(
            length as nat,
            num_layers as nat,
            spacing as nat,
            0,
            spacing as nat,
        ),
{
    if num_layers == 0 {
        return Err(ModelError::NoLayers);
    }
    let ghost whole = wedge_walk(length as nat, num_layers as nat, spacing as nat, 0, spacing as nat);
    let mut positions: Vec<usize> = Vec::new();
    let mut position: usize = spacing;
    let mut i: usize = 0;
    while i < num_layers
        invariant
            i <= num_layers,
            whole == wedge_walk(length as nat, num_layers as nat, spacing as nat, 0, spacing as nat),
            positions@ + wedge_walk(
                length as nat,
                num_layers as nat,
                spacing as nat,
                i as nat,
                position as nat,
            ) == whole,
        decreases num_layers - i,
    {
        if position >= length {
            proof {
                lemma_wedge_walk_past_end(
                    length as nat,
                    num_layers as nat,
                    spacing as nat,
                    i as nat,
                    position as nat,
                );
                assert(positions@ + Seq::<usize>::empty() =~= positions@);
            }
            return Ok(positions);
        }
        let ghost rest = wedge_walk(
            length as nat,
            num_layers as nat,
            spacing as nat,
            (i + 1) as nat,
            (position + spacing + i * (spacing / 4)) as nat,
        );
        proof {
            assert(positions@.push(position) + rest =~= positions@ + (seq![position] + rest));
        }
        positions.push(position);
        let step = match i.checked_mul(spacing / 4) {
            Some(widening) => spacing.checked_add(widening),
            None => None,
        };
        let next = match step {
            Some(s) => position.checked_add(s),
            None => None,
        };
        i = i + 1;
        match next {
            Some(n) => {
                position = n;
            },
            None => {
                proof {
                    if i < num_layers {
                        lemma_wedge_walk_past_end(
                            length as nat,
                            num_layers as nat,
                            spacing as nat,
                            i as nat,
                            (position + spacing + (i - 1) * (spacing / 4)) as nat,
                        );
                    }
                    assert(positions@ + Seq::<usize>::empty() =~= positions@);
                }
                return Ok(positions);
            },
        }
    }
    proof {
        assert(positions@ + Seq::<usize>::empty() =~= positions@);
    }
    Ok(positions)
}

} // verus!
