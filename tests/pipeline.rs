use gridviz::pipeline::{
    bind_set_matches, binding_accepts, compute_bind_entries, compute_layout_entries,
    render_bind_entries, render_layout_entries, BindEntry, BindingKind, GridResource,
    LayoutEntry, ShaderStage,
};

#[test]
fn render_layout_is_image_then_sampler() {
    let l = render_layout_entries();
    assert_eq!(
        l,
        vec![
            LayoutEntry { binding: 0, visibility: ShaderStage::Fragment, kind: BindingKind::SampledImage },
            LayoutEntry { binding: 1, visibility: ShaderStage::Fragment, kind: BindingKind::NonFilteringSampler },
        ]
    );
}

#[test]
fn compute_layout_is_image_dims_and_fields() {
    let l = compute_layout_entries();
    assert_eq!(l.len(), 4);
    assert_eq!(l[0].kind, BindingKind::WriteOnlyStorageImage);
    assert_eq!(l[1].kind, BindingKind::UniformBuffer);
    assert_eq!(l[2].kind, BindingKind::ReadOnlyStorageBuffer);
    assert_eq!(l[3].kind, BindingKind::ReadOnlyStorageBuffer);
    for (i, e) in l.iter().enumerate() {
        assert_eq!(e.binding, i as u32);
        assert_eq!(e.visibility, ShaderStage::Compute);
    }
}

#[test]
fn grid_sets_match_their_layouts() {
    assert!(bind_set_matches(&render_layout_entries(), &render_bind_entries()));
    assert!(bind_set_matches(&compute_layout_entries(), &compute_bind_entries()));
}

#[test]
fn crossed_sets_do_not_match() {
    assert!(!bind_set_matches(&render_layout_entries(), &compute_bind_entries()));
    assert!(!bind_set_matches(&compute_layout_entries(), &render_bind_entries()));
}

#[test]
fn wrong_resource_or_binding_is_a_mismatch() {
    let layout = render_layout_entries();
    let swapped = vec![
        BindEntry { binding: 0, resource: GridResource::NearestClampSampler },
        BindEntry { binding: 1, resource: GridResource::ImageView },
    ];
    assert!(!bind_set_matches(&layout, &swapped));
    let renumbered = vec![
        BindEntry { binding: 1, resource: GridResource::ImageView },
        BindEntry { binding: 0, resource: GridResource::NearestClampSampler },
    ];
    assert!(!bind_set_matches(&layout, &renumbered));
}

#[test]
fn slot_kinds_accept_their_resources() {
    assert!(binding_accepts(BindingKind::ReadOnlyStorageBuffer, GridResource::FieldU));
    assert!(binding_accepts(BindingKind::ReadOnlyStorageBuffer, GridResource::FieldV));
    assert!(!binding_accepts(BindingKind::ReadOnlyStorageBuffer, GridResource::DimsBuffer));
    assert!(binding_accepts(BindingKind::UniformBuffer, GridResource::DimsBuffer));
    assert!(!binding_accepts(BindingKind::NonFilteringSampler, GridResource::ImageView));
}
