use super_native_extensions::api_model::{
    DataProvider, DataProviderId, DataProviderValueId, DataRepresentation, VirtualFileStorage,
};
use super_native_extensions::data_provider::PlatformDataProvider;
use super_native_extensions::data_provider_manager::{
    complete_lazy_data, DataProviderManager, NativeExtensionsError, SessionNotice,
    ValuePromiseResult, VirtualFileCancel, VirtualFileComplete, VirtualFileError,
    VirtualFileResult, VirtualFileSizeKnown, VirtualSessionId,
};

fn not_found() -> Result<Vec<SessionNotice>, NativeExtensionsError> {
    Err(NativeExtensionsError::VirtualFileSessionNotFound)
}

#[test]
fn provider_id_from_integer() {
    assert_eq!(DataProviderId::from(7), DataProviderId::from(7));
    assert_ne!(DataProviderId::from(7), DataProviderId::from(8));
    assert_eq!(VirtualSessionId::from(3), VirtualSessionId::from(3));
    assert_ne!(VirtualSessionId::from(3), VirtualSessionId::from(-3));
}

#[test]
fn representation_kind_and_format() {
    let simple = DataRepresentation::Simple {
        format: "public.utf8-plain-text".to_string(),
        data: "hello".to_string(),
    };
    let lazy: DataRepresentation<String> = DataRepresentation::Lazy { id: DataProviderValueId(1), format: "public.png".to_string() };
    let file = DataRepresentation::VirtualFile {
        id: DataProviderValueId(2),
        format: "public.jpeg".to_string(),
        storage_suggestion: Some(VirtualFileStorage::TemporaryFile),
    };
    assert!(!simple.is_virtual_file());
    assert!(!lazy.is_virtual_file());
    assert!(file.is_virtual_file());
    assert_eq!(simple.format(), "public.utf8-plain-text");
    assert_eq!(lazy.format(), "public.png");
    assert_eq!(file.format(), "public.jpeg");
    let provider = DataProvider { representations: vec![simple.clone(), file], suggested_name: None };
    assert_eq!(provider.representations[0], simple);
    assert_eq!(provider.representations.len(), 2);
}

#[test]
fn virtual_file_without_storage_suggestion() {
    let file: DataRepresentation<i64> = DataRepresentation::VirtualFile {
        id: DataProviderValueId(9),
        format: "".to_string(),
        storage_suggestion: None,
    };
    let data: DataRepresentation<i64> = DataRepresentation::Simple { format: "x".to_string(), data: 3 };
    assert!(!data.is_virtual_file());
    assert!(file.is_virtual_file());
    assert_eq!(file.format(), "");
}

#[test]
fn writer_declares_its_type_and_answers_it() {
    let p = PlatformDataProvider::new("public.utf8-plain-text".to_string(), "text".to_string());
    assert_eq!(p.writable_types(), vec!["public.utf8-plain-text".to_string()]);
    for t in p.writable_types() {
        assert_eq!(p.object_for_type(&t), Some("text".to_string()));
    }
    assert_eq!(p.object_for_type(&"public.html".to_string()), None);
    assert_eq!(p.object_for_type(&"".to_string()), None);
}

#[test]
fn sessions_get_increasing_identifiers() {
    let mut m = DataProviderManager::new();
    assert_eq!(m.register_virtual_session(), Some(VirtualSessionId::from(1)));
    assert_eq!(m.register_virtual_session(), Some(VirtualSessionId::from(2)));
    assert_eq!(m.register_virtual_session(), Some(VirtualSessionId::from(3)));
}

#[test]
fn unknown_session_is_refused() {
    let mut m = DataProviderManager::new();
    let id = VirtualSessionId::from(1);
    assert_eq!(m.virtual_file_update_progress(id), not_found());
    assert_eq!(m.virtual_file_size_known(VirtualFileSizeKnown { session_id: id, file_size: 10 }), not_found());
    assert_eq!(m.virtual_file_complete(VirtualFileComplete { session_id: id }), not_found());
    assert_eq!(m.virtual_file_cancel(VirtualFileCancel { session_id: id }), not_found());
    assert_eq!(
        m.virtual_file_error(VirtualFileError { session_id: id, error_message: "x".to_string() }),
        not_found()
    );
    // Nothing was opened by the refused messages.
    assert_eq!(m.register_virtual_session(), Some(id));
}

#[test]
fn complete_without_size_reports_size_unknown() {
    let mut m = DataProviderManager::new();
    let id = m.register_virtual_session().unwrap();
    assert_eq!(m.virtual_file_update_progress(id), Ok(vec![SessionNotice::Progress]));
    assert_eq!(m.virtual_file_update_progress(id), Ok(vec![SessionNotice::Progress]));
    assert_eq!(
        m.virtual_file_complete(VirtualFileComplete { session_id: id }),
        Ok(vec![SessionNotice::SizeUnknown, SessionNotice::Finished(VirtualFileResult::Done)])
    );
}

#[test]
fn complete_after_size_does_not_report_size_again() {
    let mut m = DataProviderManager::new();
    let id = m.register_virtual_session().unwrap();
    assert_eq!(
        m.virtual_file_size_known(VirtualFileSizeKnown { session_id: id, file_size: 4096 }),
        Ok(vec![SessionNotice::SizeKnown(4096)])
    );
    assert_eq!(m.virtual_file_update_progress(id), Ok(vec![SessionNotice::Progress]));
    assert_eq!(
        m.virtual_file_complete(VirtualFileComplete { session_id: id }),
        Ok(vec![SessionNotice::Finished(VirtualFileResult::Done)])
    );
}

#[test]
fn error_carries_its_message() {
    let mut m = DataProviderManager::new();
    let id = m.register_virtual_session().unwrap();
    assert_eq!(
        m.virtual_file_error(VirtualFileError { session_id: id, error_message: "disk full".to_string() }),
        Ok(vec![
            SessionNotice::SizeUnknown,
            SessionNotice::Finished(VirtualFileResult::Error { message: "disk full".to_string() })
        ])
    );
}

#[test]
fn cancel_after_size() {
    let mut m = DataProviderManager::new();
    let id = m.register_virtual_session().unwrap();
    assert_eq!(
        m.virtual_file_size_known(VirtualFileSizeKnown { session_id: id, file_size: -1 }),
        Ok(vec![SessionNotice::SizeKnown(-1)])
    );
    assert_eq!(
        m.virtual_file_cancel(VirtualFileCancel { session_id: id }),
        Ok(vec![SessionNotice::Finished(VirtualFileResult::Cancelled)])
    );
}

#[test]
fn ended_session_stays_ended() {
    let mut m = DataProviderManager::new();
    let id = m.register_virtual_session().unwrap();
    assert!(m.virtual_file_cancel(VirtualFileCancel { session_id: id }).is_ok());
    assert_eq!(m.virtual_file_complete(VirtualFileComplete { session_id: id }), not_found());
    assert_eq!(m.virtual_file_update_progress(id), not_found());
    assert_eq!(m.virtual_file_size_known(VirtualFileSizeKnown { session_id: id, file_size: 1 }), not_found());
    assert_eq!(m.virtual_file_cancel(VirtualFileCancel { session_id: id }), not_found());
}

#[test]
fn other_sessions_are_unaffected() {
    let mut m = DataProviderManager::new();
    let a = m.register_virtual_session().unwrap();
    let b = m.register_virtual_session().unwrap();
    assert_eq!(
        m.virtual_file_size_known(VirtualFileSizeKnown { session_id: a, file_size: 5 }),
        Ok(vec![SessionNotice::SizeKnown(5)])
    );
    assert!(m.virtual_file_complete(VirtualFileComplete { session_id: a }).is_ok());
    assert_eq!(m.virtual_file_update_progress(b), Ok(vec![SessionNotice::Progress]));
    assert_eq!(
        m.virtual_file_complete(VirtualFileComplete { session_id: b }),
        Ok(vec![SessionNotice::SizeUnknown, SessionNotice::Finished(VirtualFileResult::Done)])
    );
    // Identifiers of ended sessions are not handed out again.
    assert_eq!(m.register_virtual_session(), Some(VirtualSessionId::from(3)));
}

#[test]
fn lazy_data_is_test_string() {
    let m = DataProviderManager::new();
    assert_eq!(
        m.lazy_data(DataProviderValueId(42)),
        ValuePromiseResult::Resolved { value: "test1".to_string() }
    );
}

#[test]
fn lazy_data_completion_depends_on_manager() {
    let m = DataProviderManager::new();
    let alive = complete_lazy_data(Some(&m), DataProviderValueId(1));
    assert!(alive.notify_done);
    assert_eq!(alive.result, ValuePromiseResult::Resolved { value: "test1".to_string() });
    let gone = complete_lazy_data(None, DataProviderValueId(1));
    assert!(!gone.notify_done);
    assert_eq!(gone.result, ValuePromiseResult::Cancelled);
}
