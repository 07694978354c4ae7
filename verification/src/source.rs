//! The `ColumnDataSource` a chart's glyphs read: its columns, an empty
//! selection and the union selection policy.

use vstd::prelude::*;
use crate::id_gen::{IdGen, id_for};
use crate::model::{BokehObject, BokehValue, ModelObject, ModelValue, lemma_view_values_index, mobj, mval, view_attrs,
    view_values};

verus! {

/// The data source built at counter `k` over the columns `data`: the
/// source at `k`, its selection at `k + 1`, its selection policy at `k + 2`.
pub open spec fn source_model(k: nat, data: Seq<(Seq<char>, ModelValue)>) -> ModelObject {
    mobj("ColumnDataSource"@, id_for(k), seq![
        ("selected"@, mval(mobj("Selection"@, id_for(k + 1), seq![
            ("indices"@, ModelValue::Array(Seq::empty())),
            ("line_indices"@, ModelValue::Array(Seq::empty())),
        ]))),
        ("selection_policy"@, mval(mobj("UnionRenderers"@, id_for(k + 2), seq![]))),
        ("data"@, ModelValue::Entries(data)),
    ])
}

/// Build a `ColumnDataSource` over the columns `data` (name and values of
/// each, in order).
pub fn build_source(id_gen: &mut IdGen, data: Vec<(String, BokehValue)>) -> (r: BokehObject)
    requires
        old(id_gen).can_issue(3),
    ensures
        final(id_gen)@ == old(id_gen)@ + 3,
        r@ == source_model(old(id_gen)@, view_attrs(data@)),
{
    let ghost k = id_gen@;
    let ghost dv = view_attrs(data@);
    let cds_id = id_gen.next();
    let sel_id = id_gen.next();
    let policy_id = id_gen.next();
    let no_indices: Vec<BokehValue> = Vec::new();
    let no_lines: Vec<BokehValue> = Vec::new();
    proof {
        lemma_view_values_index(no_indices@);
        lemma_view_values_index(no_lines@);
        assert(view_values(no_indices@) =~= Seq::<ModelValue>::empty());
        assert(view_values(no_lines@) =~= Seq::<ModelValue>::empty());
    }
    let selection = BokehObject::new("Selection", sel_id)
        .attr("indices", BokehValue::Array(no_indices))
        .attr("line_indices", BokehValue::Array(no_lines));
    let policy = BokehObject::new("UnionRenderers", policy_id);
    let dval = BokehValue::Entries(data);
    assert(dval@ == ModelValue::Entries(dv));
    assert(selection@.attrs =~= seq![
        ("indices"@, ModelValue::Array(Seq::empty())),
        ("line_indices"@, ModelValue::Array(Seq::empty())),
    ]);
    assert(selection@ == mobj("Selection"@, id_for(k + 1), seq![
        ("indices"@, ModelValue::Array(Seq::empty())),
        ("line_indices"@, ModelValue::Array(Seq::empty())),
    ]));
    assert(policy@.attrs =~= Seq::<(Seq<char>, ModelValue)>::empty());
    let cds = BokehObject::new("ColumnDataSource", cds_id)
        .attr("selected", selection.into_value())
        .attr("selection_policy", policy.into_value())
        .attr("data", dval);
    proof {
        assert(cds@.attrs =~= source_model(k, dv).attrs);
    }
    cds
}

} // verus!
