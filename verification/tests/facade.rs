use wayland_frontend::buffer::BufferInfo;
use wayland_frontend::defs::{Area, ClientId, DmabufId, EglImageId, MemoryPoolId, MemoryViewId};
use wayland_frontend::defs::{ObjectId, Position, PositionerInfo, ShellSurfaceOid, ShowReason};
use wayland_frontend::defs::{Size, SurfaceId, Transfer};
use wayland_frontend::effect::{Diagnostic, Effect};
use wayland_frontend::proxy::Proxy;
use wayland_frontend::surface::SurfaceInfo;

const CLIENT: ClientId = ClientId { value: 77 };

fn oid(value: u32) -> ObjectId {
    ObjectId::new(value)
}

fn sid(value: u64) -> SurfaceId {
    SurfaceId::new(value)
}

fn report(diagnostic: Diagnostic) -> Effect {
    Effect::Report { diagnostic }
}

#[test]
fn attach_then_null_attach_detaches_once_and_keeps_buffer() {
    let mut proxy = Proxy::new(CLIENT);
    let s = sid(1);
    let pool = MemoryPoolId { value: 3 };
    let view = MemoryViewId { value: 5 };
    assert_eq!(proxy.create_memory_view(pool, oid(7), Some(view)), Some(view));
    assert_eq!(proxy.attach(oid(7), s, 0, 0), vec![Effect::AttachShm { view, surface: s }]);
    let effects = proxy.attach(oid(0), s, 0, 0);
    assert_eq!(
        effects,
        vec![Effect::UnrelateSurface { surface: s }, Effect::DetachSurface { surface: s }]
    );
    let detaches = effects.iter().filter(|e| matches!(e, Effect::DetachSurface { .. })).count();
    assert_eq!(detaches, 1);
    assert!(!effects.iter().any(|e| matches!(
        e,
        Effect::AttachShm { .. } | Effect::AttachEglImage { .. } | Effect::AttachDmabuf { .. }
    )));
    assert_eq!(proxy.get_buffer_info(oid(7)), Some(BufferInfo::Shm { mpid: pool, mvid: view }));
    let info = proxy.get_surface_info(s).unwrap();
    assert_eq!(info.buffer_oid, Some(oid(7)));
}

#[test]
fn null_attach_on_empty_session_still_detaches() {
    let mut proxy = Proxy::new(CLIENT);
    let s = sid(9);
    assert_eq!(
        proxy.attach(ObjectId::new(0), s, 4, 5),
        vec![Effect::UnrelateSurface { surface: s }, Effect::DetachSurface { surface: s }]
    );
    assert_eq!(proxy.get_surface_info(s), None);
}

#[test]
fn attach_of_unknown_buffer_is_reported_and_changes_nothing() {
    let mut proxy = Proxy::new(CLIENT);
    let s = sid(1);
    assert_eq!(
        proxy.attach(oid(8), s, 0, 0),
        vec![report(Diagnostic::UnknownBuffer { buffer: oid(8) })]
    );
    assert_eq!(proxy.get_surface_info(s), None);
    assert_eq!(proxy.get_buffer_info(oid(8)), None);
}

#[test]
fn attach_dispatches_on_the_recorded_backend() {
    let mut proxy = Proxy::new(CLIENT);
    let image = EglImageId { value: 21 };
    let dmabuf = DmabufId { value: 22 };
    assert_eq!(proxy.create_egl_image(oid(2), Some(image)), Some(image));
    assert_eq!(proxy.import_dmabuf(oid(3), Some(dmabuf)), Some(dmabuf));
    assert_eq!(
        proxy.attach(oid(2), sid(1), 0, 0),
        vec![Effect::AttachEglImage { image, surface: sid(1) }]
    );
    assert_eq!(
        proxy.attach(oid(3), sid(2), 0, 0),
        vec![Effect::AttachDmabuf { buffer: dmabuf, surface: sid(2) }]
    );
    assert_eq!(proxy.get_buffer_info(oid(2)), Some(BufferInfo::new_egl_image(image)));
    assert_eq!(proxy.get_buffer_info(oid(3)), Some(BufferInfo::new_dmabuf(dmabuf)));
}

#[test]
fn refused_buffers_leave_no_record() {
    let mut proxy = Proxy::new(CLIENT);
    assert_eq!(proxy.create_memory_view(MemoryPoolId { value: 1 }, oid(1), None), None);
    assert_eq!(proxy.create_egl_image(oid(2), None), None);
    assert_eq!(proxy.import_dmabuf(oid(3), None), None);
    assert_eq!(proxy.get_buffer_info(oid(1)), None);
    assert_eq!(proxy.get_buffer_info(oid(2)), None);
    assert_eq!(proxy.get_buffer_info(oid(3)), None);
}

#[test]
fn a_new_buffer_record_replaces_the_old_one() {
    let mut proxy = Proxy::new(CLIENT);
    proxy.create_egl_image(oid(2), Some(EglImageId { value: 1 }));
    proxy.import_dmabuf(oid(2), Some(DmabufId { value: 9 }));
    assert_eq!(
        proxy.get_buffer_info(oid(2)),
        Some(BufferInfo::Dmabuf { dbid: DmabufId { value: 9 } })
    );
}

#[test]
fn second_attach_replaces_the_pending_buffer() {
    let mut proxy = Proxy::new(CLIENT);
    let s = sid(1);
    proxy.create_surface(oid(10), Some(s));
    proxy.set_frame(s, oid(60));
    proxy.create_egl_image(oid(2), Some(EglImageId { value: 1 }));
    proxy.create_egl_image(oid(3), Some(EglImageId { value: 2 }));
    proxy.attach(oid(2), s, 0, 0);
    assert_eq!(
        proxy.attach(oid(3), s, 0, 0),
        vec![Effect::AttachEglImage { image: EglImageId { value: 2 }, surface: s }]
    );
    assert_eq!(
        proxy.get_surface_info(s),
        Some(SurfaceInfo {
            surface_oid: Some(oid(10)),
            buffer_oid: Some(oid(3)),
            frame_oid: Some(oid(60)),
            shell_surface_oid: None,
        })
    );
}

#[test]
fn attach_to_a_surface_without_record_makes_one() {
    let mut proxy = Proxy::new(CLIENT);
    proxy.import_dmabuf(oid(3), Some(DmabufId { value: 9 }));
    proxy.attach(oid(3), sid(8), 0, 0);
    assert_eq!(
        proxy.get_surface_info(sid(8)),
        Some(SurfaceInfo {
            surface_oid: None,
            buffer_oid: Some(oid(3)),
            frame_oid: None,
            shell_surface_oid: None,
        })
    );
}

#[test]
fn create_surface_binds_and_relates() {
    let mut proxy = Proxy::new(CLIENT);
    let (result, effects) = proxy.create_surface(oid(10), Some(sid(4)));
    assert_eq!(result, Some(sid(4)));
    assert_eq!(effects, vec![Effect::RelateSurfaceToClient { surface: sid(4), client: CLIENT }]);
    assert_eq!(proxy.get_surface_id(oid(10)), Some(sid(4)));
    assert_eq!(
        proxy.get_surface_info(sid(4)),
        Some(SurfaceInfo {
            surface_oid: Some(oid(10)),
            buffer_oid: None,
            frame_oid: None,
            shell_surface_oid: None,
        })
    );
    assert_eq!(proxy.get_client_id(), CLIENT);
}

#[test]
fn refused_surface_binds_nothing() {
    let mut proxy = Proxy::new(CLIENT);
    let (result, effects) = proxy.create_surface(oid(10), None);
    assert_eq!(result, None);
    assert!(effects.is_empty());
    assert_eq!(proxy.get_surface_id(oid(10)), None);
    assert!(proxy.terminate().is_empty());
}

#[test]
fn show_binds_shell_and_hide_clears_it() {
    let mut proxy = Proxy::new(CLIENT);
    let reason = ShowReason { bits: 2 };
    proxy.create_surface(oid(10), Some(sid(4)));
    let shell = ShellSurfaceOid::ZxdgToplevelV6(oid(11), oid(12));
    assert_eq!(
        proxy.show(oid(10), shell, reason),
        vec![Effect::ShowSurface { surface: sid(4), reason }]
    );
    assert_eq!(proxy.get_surface_info(sid(4)).unwrap().shell_surface_oid, Some(shell));
    assert_eq!(proxy.get_surface_oid_for_shell(oid(11)), Some(oid(10)));
    assert_eq!(proxy.get_surface_oid_for_shell(oid(12)), None);
    assert_eq!(
        proxy.hide_surface(oid(10), reason),
        vec![Effect::HideSurface { surface: sid(4), reason }]
    );
    let info = proxy.get_surface_info(sid(4)).unwrap();
    assert_eq!(info.shell_surface_oid, None);
    assert_eq!(info.surface_oid, Some(oid(10)));
    assert_eq!(proxy.get_surface_oid_for_shell(oid(11)), None);
}

#[test]
fn show_and_hide_of_unknown_surface_are_reported() {
    let mut proxy = Proxy::new(CLIENT);
    let reason = ShowReason { bits: 1 };
    assert_eq!(
        proxy.show(oid(10), ShellSurfaceOid::Shell(oid(11)), reason),
        vec![report(Diagnostic::UnknownSurface { surface: oid(10) })]
    );
    assert_eq!(
        proxy.hide_surface(oid(10), reason),
        vec![report(Diagnostic::UnknownSurface { surface: oid(10) })]
    );
}

#[test]
fn second_show_replaces_the_shell_object() {
    let mut proxy = Proxy::new(CLIENT);
    let reason = ShowReason { bits: 1 };
    proxy.create_surface(oid(10), Some(sid(4)));
    proxy.show(oid(10), ShellSurfaceOid::Shell(oid(11)), reason);
    assert_eq!(
        proxy.show(oid(10), ShellSurfaceOid::Shell(oid(12)), reason),
        vec![Effect::ShowSurface { surface: sid(4), reason }]
    );
    let info = proxy.get_surface_info(sid(4)).unwrap();
    assert_eq!(info.shell_surface_oid, Some(ShellSurfaceOid::Shell(oid(12))));
    assert_eq!(info.surface_oid, Some(oid(10)));
}

#[test]
fn shell_lookup_takes_the_first_surface_in_order() {
    let mut proxy = Proxy::new(CLIENT);
    let reason = ShowReason { bits: 1 };
    proxy.create_surface(oid(10), Some(sid(4)));
    proxy.create_surface(oid(20), Some(sid(5)));
    proxy.create_surface(oid(30), Some(sid(6)));
    proxy.show(oid(10), ShellSurfaceOid::Shell(oid(50)), reason);
    proxy.show(oid(20), ShellSurfaceOid::ZxdgToplevelV6(oid(50), oid(51)), reason);
    proxy.show(oid(30), ShellSurfaceOid::ZxdgToplevelV6(oid(50), oid(52)), reason);
    assert_eq!(proxy.get_surface_oid_for_shell(oid(50)), Some(oid(20)));
}

#[test]
fn set_as_cursor_negates_the_hotspot() {
    let mut proxy = Proxy::new(CLIENT);
    proxy.create_surface(oid(10), Some(sid(4)));
    assert_eq!(
        proxy.set_as_cursor(oid(10), 3, -8),
        vec![
            Effect::SetSurfaceOffset { surface: sid(4), offset: Position { x: -3, y: 8 } },
            Effect::SetSurfaceAsCursor { surface: sid(4) },
        ]
    );
    assert_eq!(
        proxy.set_as_cursor(oid(11), 3, 8),
        vec![report(Diagnostic::UnknownSurface { surface: oid(11) })]
    );
}

#[test]
fn relate_and_unrelate_resolve_surface_objects() {
    let mut proxy = Proxy::new(CLIENT);
    proxy.create_surface(oid(10), Some(sid(4)));
    proxy.create_surface(oid(20), Some(sid(5)));
    let origin = Position { x: 0, y: 0 };
    assert_eq!(
        proxy.relate(oid(10), oid(20)),
        vec![
            Effect::RelateSurfaces { surface: sid(4), parent: sid(5) },
            Effect::SetSurfaceRelativePosition { surface: sid(4), position: origin },
        ]
    );
    assert_eq!(
        proxy.relate(oid(10), oid(21)),
        vec![Effect::SetSurfaceRelativePosition { surface: sid(4), position: origin }]
    );
    assert_eq!(
        proxy.relate(oid(11), oid(20)),
        vec![report(Diagnostic::UnknownSurface { surface: oid(11) })]
    );
    assert_eq!(proxy.unrelate(oid(20)), vec![Effect::UnrelateSurface { surface: sid(5) }]);
    assert_eq!(
        proxy.unrelate(oid(21)),
        vec![report(Diagnostic::UnknownSurface { surface: oid(21) })]
    );
    assert_eq!(
        proxy.set_relative_position(oid(20), -4, 6),
        vec![Effect::SetSurfaceRelativePosition {
            surface: sid(5),
            position: Position::new(-4, 6)
        }]
    );
    assert_eq!(
        proxy.set_relative_position(oid(21), 1, 1),
        vec![report(Diagnostic::UnknownSurface { surface: oid(21) })]
    );
}

#[test]
fn input_region_uses_the_defined_region() {
    let mut proxy = Proxy::new(CLIENT);
    let region = Area { pos: Position { x: 1, y: 2 }, size: Size { width: 30, height: 40 } };
    proxy.define_region(oid(5), region);
    assert_eq!(
        proxy.set_input_region(sid(4), oid(5)),
        vec![
            Effect::SetSurfaceOffset { surface: sid(4), offset: region.pos },
            Effect::SetSurfaceRequestedSize { surface: sid(4), size: region.size },
        ]
    );
    proxy.undefine_region(oid(5));
    assert!(proxy.set_input_region(sid(4), oid(5)).is_empty());
}

#[test]
fn positioners_are_set_read_and_removed() {
    let mut proxy = Proxy::new(CLIENT);
    let positioner = PositionerInfo {
        offset: Position { x: 1, y: 2 },
        size: Size { width: 3, height: 4 },
        anchor: Area { pos: Position { x: 5, y: 6 }, size: Size { width: 7, height: 8 } },
    };
    assert_eq!(proxy.get_positioner(oid(1)), None);
    proxy.set_positioner(oid(1), positioner);
    assert_eq!(proxy.get_positioner(oid(1)), Some(positioner));
    proxy.remove_positioner(oid(1));
    assert_eq!(proxy.get_positioner(oid(1)), None);
}

#[test]
fn select_transfer_needs_a_registered_source() {
    let mut proxy = Proxy::new(CLIENT);
    assert_eq!(
        proxy.select_transfer(oid(6)),
        vec![report(Diagnostic::UnknownTransfer { data_source: oid(6) })]
    );
    assert!(proxy.on_transfer_requested().is_empty());
    proxy.set_transfer(oid(6), Transfer::new(vec!["text/plain".to_string()]));
    assert_eq!(proxy.get_transfer(oid(6)).unwrap().mime_types, vec!["text/plain".to_string()]);
    assert_eq!(proxy.get_transfer(oid(6)).unwrap().count(), 1);
    assert_eq!(
        proxy.select_transfer(oid(6)),
        vec![
            Effect::RegisterTransferOfferer { client: Some(CLIENT) },
            Effect::SetTransfer { data_source: oid(6) },
        ]
    );
    assert_eq!(proxy.on_transfer_requested(), vec![Effect::DataSourceSend { data_source: oid(6) }]);
}

#[test]
fn removed_transfer_stays_active_until_the_next_selection() {
    let mut proxy = Proxy::new(CLIENT);
    proxy.set_transfer(oid(6), Transfer::new(vec![]));
    proxy.set_transfer(oid(7), Transfer::new(vec!["a".to_string(), "b".to_string()]));
    proxy.select_transfer(oid(6));
    proxy.remove_transfer(oid(6));
    assert!(proxy.get_transfer(oid(6)).is_none());
    assert_eq!(proxy.on_transfer_requested(), vec![Effect::DataSourceSend { data_source: oid(6) }]);
    assert_eq!(
        proxy.select_transfer(oid(6)),
        vec![report(Diagnostic::UnknownTransfer { data_source: oid(6) })]
    );
    assert_eq!(proxy.on_transfer_requested(), vec![Effect::DataSourceSend { data_source: oid(6) }]);
    proxy.select_transfer(oid(7));
    assert_eq!(proxy.on_transfer_requested(), vec![Effect::DataSourceSend { data_source: oid(7) }]);
}

#[test]
fn data_offer_goes_to_every_device_with_every_type() {
    let mut proxy = Proxy::new(CLIENT);
    proxy.add_data_device_oid(oid(40));
    proxy.add_data_device_oid(oid(41));
    assert!(proxy.make_data_offer(None).is_empty());
    assert_eq!(
        proxy.make_data_offer(Some(2)),
        vec![
            Effect::DataOfferCreate { data_device: oid(40) },
            Effect::DataOfferType { data_device: oid(40), index: 0 },
            Effect::DataOfferType { data_device: oid(40), index: 1 },
            Effect::DataOfferSelect { data_device: oid(40) },
            Effect::DataOfferCreate { data_device: oid(41) },
            Effect::DataOfferType { data_device: oid(41), index: 0 },
            Effect::DataOfferType { data_device: oid(41), index: 1 },
            Effect::DataOfferSelect { data_device: oid(41) },
        ]
    );
    proxy.remove_data_device_oid(oid(40));
    assert_eq!(
        proxy.make_data_offer(Some(0)),
        vec![
            Effect::DataOfferCreate { data_device: oid(41) },
            Effect::DataOfferSelect { data_device: oid(41) },
        ]
    );
}

#[test]
fn pools_are_destroyed_once() {
    let mut proxy = Proxy::new(CLIENT);
    let a = MemoryPoolId { value: 1 };
    let b = MemoryPoolId { value: 2 };
    assert_eq!(proxy.create_memory_pool(a), a);
    assert_eq!(proxy.create_memory_pool(b), b);
    assert_eq!(proxy.create_memory_pool(a), a);
    assert_eq!(proxy.destroy_memory_pool(a), vec![Effect::DestroyMemoryPool { pool: a }]);
    assert!(proxy.destroy_memory_pool(a).is_empty());
    assert_eq!(proxy.terminate(), vec![Effect::DestroyMemoryPool { pool: b }]);
    assert!(proxy.terminate().is_empty());
}

#[test]
fn terminate_gives_up_pools_then_surfaces_and_only_once() {
    let mut proxy = Proxy::new(CLIENT);
    proxy.create_memory_pool(MemoryPoolId { value: 8 });
    proxy.create_memory_pool(MemoryPoolId { value: 3 });
    proxy.create_surface(oid(10), Some(sid(4)));
    proxy.create_surface(oid(20), Some(sid(2)));
    proxy.add_pointer_oid(oid(30));
    let expected = vec![
        Effect::DestroyMemoryPool { pool: MemoryPoolId { value: 8 } },
        Effect::DestroyMemoryPool { pool: MemoryPoolId { value: 3 } },
        Effect::ForgetSurface { surface: sid(4) },
        Effect::DestroySurface { surface: sid(4) },
        Effect::ForgetSurface { surface: sid(2) },
        Effect::DestroySurface { surface: sid(2) },
    ];
    assert_eq!(proxy.terminate(), expected);
    assert!(proxy.terminate().is_empty());
    // What was given up is gone; the rest of the session is as it was.
    assert_eq!(proxy.get_surface_id(oid(10)), None);
    assert_eq!(proxy.get_surface_id(oid(20)), None);
    assert!(proxy.destroy_memory_pool(MemoryPoolId { value: 8 }).is_empty());
    assert_eq!(proxy.get_surface_info(sid(4)).unwrap().surface_oid, Some(oid(10)));
    assert_eq!(
        proxy.on_pointer_button(
            wayland_frontend::defs::Button {
                code: 1,
                value: 1,
                time: wayland_frontend::defs::Milliseconds { value: 2 }
            },
            3
        )
        .len(),
        1
    );
}

#[test]
fn set_frame_replaces_a_pending_callback() {
    let mut proxy = Proxy::new(CLIENT);
    proxy.set_frame(sid(4), oid(60));
    assert_eq!(proxy.get_surface_info(sid(4)).unwrap().frame_oid, Some(oid(60)));
    proxy.set_frame(sid(4), oid(61));
    assert_eq!(
        proxy.get_surface_info(sid(4)),
        Some(SurfaceInfo {
            surface_oid: None,
            buffer_oid: None,
            frame_oid: Some(oid(61)),
            shell_surface_oid: None,
        })
    );
}

#[test]
fn null_is_the_object_with_value_zero() {
    assert!(ObjectId::new(0).is_null());
    assert!(!ObjectId::new(1).is_null());
    assert!(!ObjectId::new(u32::MAX).is_null());
    assert_eq!(ObjectId::new(17).get_value(), 17);
    assert!(!SurfaceId::invalid().is_valid());
    assert!(SurfaceId::new(1).is_valid());
    assert_eq!(Position::default(), Position { x: 0, y: 0 });
}

#[test]
fn a_surface_takes_its_latest_surface_object() {
    let mut proxy = Proxy::new(CLIENT);
    proxy.create_surface(oid(10), Some(sid(4)));
    let (result, effects) = proxy.create_surface(oid(11), Some(sid(4)));
    assert_eq!(result, Some(sid(4)));
    assert_eq!(effects, vec![Effect::RelateSurfaceToClient { surface: sid(4), client: CLIENT }]);
    assert_eq!(proxy.get_surface_info(sid(4)).unwrap().surface_oid, Some(oid(11)));
    assert_eq!(proxy.get_surface_id(oid(10)), Some(sid(4)));
    assert_eq!(proxy.get_surface_id(oid(11)), Some(sid(4)));
    // Both objects are given up at the end, in creation order.
    assert_eq!(
        proxy.terminate(),
        vec![
            Effect::ForgetSurface { surface: sid(4) },
            Effect::DestroySurface { surface: sid(4) },
            Effect::ForgetSurface { surface: sid(4) },
            Effect::DestroySurface { surface: sid(4) },
        ]
    );
}

#[test]
fn rebinding_a_surface_object_keeps_its_place() {
    let mut proxy = Proxy::new(CLIENT);
    proxy.create_surface(oid(10), Some(sid(4)));
    proxy.create_surface(oid(20), Some(sid(5)));
    proxy.create_surface(oid(10), Some(sid(6)));
    assert_eq!(proxy.get_surface_id(oid(10)), Some(sid(6)));
    assert_eq!(
        proxy.terminate(),
        vec![
            Effect::ForgetSurface { surface: sid(6) },
            Effect::DestroySurface { surface: sid(6) },
            Effect::ForgetSurface { surface: sid(5) },
            Effect::DestroySurface { surface: sid(5) },
        ]
    );
}
