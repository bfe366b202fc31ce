use code_files::dto::{CreateCodeFileRequest, UpdateCodeRequest};
use code_files::entity::FileEntity;
use code_files::errors::ApplicationError;
use code_files::repository::{CodeFileRepository, InMemoryCodeFileRepository};
use code_files::source::{DynemicFileRead, InMemorySource};
use code_files::usecases::{CodeFileUsecases, CodeFileUsecasesImpl};
use uuid::Uuid;

type MockCodeFileRepository = InMemoryCodeFileRepository<InMemorySource>;

fn fresh_id() -> u128 {
    Uuid::new_v4().as_u128()
}

fn create(
    usecases: &mut CodeFileUsecasesImpl<InMemorySource>,
    name: &str,
) -> code_files::dto::CodeFileResponse {
    usecases
        .create_code_file(
            CreateCodeFileRequest { name: name.to_string() },
            fresh_id(),
            InMemorySource::new(),
        )
        .unwrap()
}

#[test]
fn test_create_code_file() {
    let repository = MockCodeFileRepository::new();
    let mut usecases = CodeFileUsecasesImpl::new(repository);

    let request = CreateCodeFileRequest { name: "test_file.txt".to_string() };

    let result = usecases.create_code_file(request, fresh_id(), InMemorySource::new());
    assert!(result.is_ok());

    let response = result.unwrap();
    assert_eq!(response.name, "test_file.txt");
    assert_eq!(response.viewport.start_index, 0);
    assert_eq!(response.viewport.content, "");
}

#[test]
fn test_get_code_file() {
    let repository = MockCodeFileRepository::new();
    let mut usecases = CodeFileUsecasesImpl::new(repository);

    let created = create(&mut usecases, "test_file.txt");
    let result = usecases.get_code_file(created.id);

    assert!(result.is_ok());
    let response = result.unwrap();
    assert_eq!(response.id, created.id);
    assert_eq!(response.name, "test_file.txt");
}

#[test]
fn test_get_code_file_not_found() {
    let repository = MockCodeFileRepository::new();
    let usecases = CodeFileUsecasesImpl::new(repository);

    let non_existent_id = fresh_id();
    let result = usecases.get_code_file(non_existent_id);

    assert!(result.is_err());
    match result {
        Err(ApplicationError::FileNotFound(_)) => {}
        _ => panic!("Expected NotFound error"),
    }
}

#[test]
fn test_update_code_file() {
    let repository = MockCodeFileRepository::new();
    let mut usecases = CodeFileUsecasesImpl::new(repository);

    let created = create(&mut usecases, "test_file.txt");

    let update_request = UpdateCodeRequest {
        id: created.id,
        start: 0,
        end: 0,
        content: "Hello, World!".to_string(),
    };

    let result = usecases.update_code_file(update_request);
    assert!(result.is_ok());

    let updated_file = usecases.get_code_file(created.id).unwrap();
    assert_eq!(updated_file.viewport.content, "Hello, World!");
}

#[test]
fn test_update_code_file_partial() {
    let repository = MockCodeFileRepository::new();
    let mut usecases = CodeFileUsecasesImpl::new(repository);

    let created = create(&mut usecases, "test_file.txt");

    let initial_update = UpdateCodeRequest {
        id: created.id,
        start: 0,
        end: 0,
        content: "Hello, World!".to_string(),
    };
    usecases.update_code_file(initial_update).unwrap();

    let partial_update = UpdateCodeRequest {
        id: created.id,
        start: 0,
        end: 5,
        content: "Goodbye".to_string(),
    };

    let result = usecases.update_code_file(partial_update);
    assert!(result.is_ok());

    let updated_file = usecases.get_code_file(created.id).unwrap();
    assert_eq!(updated_file.viewport.content, "Goodbye, World!");
}

#[test]
fn test_update_code_file_not_found() {
    let repository = MockCodeFileRepository::new();
    let mut usecases = CodeFileUsecasesImpl::new(repository);

    let update_request = UpdateCodeRequest {
        id: fresh_id(),
        start: 0,
        end: 0,
        content: "Test".to_string(),
    };

    let result = usecases.update_code_file(update_request);
    assert!(result.is_err());
    match result {
        Err(ApplicationError::FileNotFound(_)) => {}
        _ => panic!("Expected NotFound error"),
    }
}

#[test]
fn test_delete_code_file() {
    let repository = MockCodeFileRepository::new();
    let mut usecases = CodeFileUsecasesImpl::new(repository);

    let created = create(&mut usecases, "test_file.txt");
    let result = usecases.delete_code_file(created.id);

    assert!(result.is_ok());

    let get_result = usecases.get_code_file(created.id);
    assert!(get_result.is_err());
    match get_result {
        Err(ApplicationError::FileNotFound(_)) => {}
        _ => panic!("Expected NotFound error after deletion"),
    }
}

#[test]
fn test_delete_code_file_not_found() {
    let repository = MockCodeFileRepository::new();
    let mut usecases = CodeFileUsecasesImpl::new(repository);

    let non_existent_id = fresh_id();
    let result = usecases.delete_code_file(non_existent_id);

    assert!(result.is_err());
    match result {
        Err(ApplicationError::FileNotFound(_)) => {}
        _ => panic!("Expected NotFound error"),
    }
}

#[test]
fn test_multiple_files_isolation() {
    let repository = MockCodeFileRepository::new();
    let mut usecases = CodeFileUsecasesImpl::new(repository);

    let file1 = create(&mut usecases, "file1.txt");
    let file2 = create(&mut usecases, "file2.txt");

    usecases
        .update_code_file(UpdateCodeRequest {
            id: file1.id,
            start: 0,
            end: 0,
            content: "Content 1".to_string(),
        })
        .unwrap();

    usecases
        .update_code_file(UpdateCodeRequest {
            id: file2.id,
            start: 0,
            end: 0,
            content: "Content 2".to_string(),
        })
        .unwrap();

    let retrieved_file1 = usecases.get_code_file(file1.id).unwrap();
    let retrieved_file2 = usecases.get_code_file(file2.id).unwrap();

    assert_eq!(retrieved_file1.viewport.content, "Content 1");
    assert_eq!(retrieved_file2.viewport.content, "Content 2");
}

#[test]
fn update_out_of_range_is_rejected_and_keeps_text() {
    let mut usecases = CodeFileUsecasesImpl::new(MockCodeFileRepository::new());
    let created = create(&mut usecases, "r.txt");
    let result = usecases.update_code_file(UpdateCodeRequest {
        id: created.id,
        start: 0,
        end: 3,
        content: "x".to_string(),
    });
    assert!(matches!(result, Err(ApplicationError::InvalidRange(3))));
    assert_eq!(usecases.get_code_file(created.id).unwrap().viewport.content, "");
}

#[test]
fn viewport_end_counts_characters() {
    let mut usecases = CodeFileUsecasesImpl::new(MockCodeFileRepository::new());
    let created = create(&mut usecases, "u.txt");
    usecases
        .update_code_file(UpdateCodeRequest {
            id: created.id,
            start: 0,
            end: 0,
            content: "世界!".to_string(),
        })
        .unwrap();
    let read = usecases.get_code_file(created.id).unwrap();
    assert_eq!(read.viewport.start_index, 0);
    assert_eq!(read.viewport.end_index, 3);
}

#[test]
fn create_keeps_text_of_existing_medium() {
    let mut usecases = CodeFileUsecasesImpl::new(MockCodeFileRepository::new());
    let response = usecases
        .create_code_file(
            CreateCodeFileRequest { name: "k.txt".to_string() },
            fresh_id(),
            InMemorySource::with_content("kept".to_string()),
        )
        .unwrap();
    assert_eq!(response.viewport.content, "kept");
    assert_eq!(response.viewport.end_index, 4);
}

#[test]
fn not_found_names_the_identifier() {
    let usecases = CodeFileUsecasesImpl::<InMemorySource>::new(MockCodeFileRepository::new());
    let id: u128 = 0x0123456789abcdef0011223344556677;
    match usecases.get_code_file(id) {
        Err(ApplicationError::FileNotFound(text)) => {
            assert_eq!(text, "01234567-89ab-cdef-0011-223344556677");
        }
        _ => panic!("Expected NotFound error"),
    }
}

#[test]
fn repository_find_update_delete_on_unknown_id() {
    let mut repository = MockCodeFileRepository::new();
    let id = fresh_id();
    assert!(matches!(repository.find_by_id(id), Err(ApplicationError::FileNotFound(_))));
    let file = FileEntity::new(id, "n".to_string(), InMemorySource::new());
    assert!(matches!(repository.update(file), Err(ApplicationError::FileNotFound(_))));
    assert!(matches!(repository.delete(id), Err(ApplicationError::FileNotFound(_))));
    assert_eq!(repository.list().unwrap().len(), 0);
}

#[test]
fn repository_save_is_an_upsert() {
    let mut repository = MockCodeFileRepository::new();
    let id = fresh_id();
    repository
        .save(FileEntity::new(id, "a".to_string(), InMemorySource::with_content("one".to_string())))
        .unwrap();
    repository
        .save(FileEntity::new(fresh_id(), "b".to_string(), InMemorySource::new()))
        .unwrap();
    assert_eq!(repository.list().unwrap().len(), 2);
    let saved = repository
        .save(FileEntity::new(id, "a2".to_string(), InMemorySource::with_content("two".to_string())))
        .unwrap();
    assert_eq!(saved.name, "a2");
    assert_eq!(repository.list().unwrap().len(), 2);
    let found = repository.find_by_id(id).unwrap();
    assert_eq!(found.name, "a2");
    assert_eq!(found.source.get_content(), "two");
}

#[test]
fn repository_delete_removes_entry() {
    let mut repository = MockCodeFileRepository::new();
    let id = fresh_id();
    repository.save(FileEntity::new(id, "a".to_string(), InMemorySource::new())).unwrap();
    assert!(repository.contains(id));
    assert!(repository.delete(id).is_ok());
    assert!(!repository.contains(id));
    assert!(repository.delete(id).is_err());
}

#[test]
fn update_with_start_after_end_is_rejected() {
    let mut usecases = CodeFileUsecasesImpl::new(MockCodeFileRepository::new());
    let created = create(&mut usecases, "s.txt");
    usecases
        .update_code_file(UpdateCodeRequest {
            id: created.id,
            start: 0,
            end: 0,
            content: "abcdef".to_string(),
        })
        .unwrap();
    let result = usecases.update_code_file(UpdateCodeRequest {
        id: created.id,
        start: 4,
        end: 2,
        content: "x".to_string(),
    });
    assert!(matches!(result, Err(ApplicationError::InvalidRange(2))));
    let huge = usecases.update_code_file(UpdateCodeRequest {
        id: created.id,
        start: 0,
        end: u64::MAX,
        content: "x".to_string(),
    });
    assert!(matches!(huge, Err(ApplicationError::InvalidRange(_))));
    assert_eq!(usecases.get_code_file(created.id).unwrap().viewport.content, "abcdef");
}

#[test]
fn delete_removes_medium_and_entry() {
    let mut usecases = CodeFileUsecasesImpl::new(MockCodeFileRepository::new());
    let created = create(&mut usecases, "d.txt");
    assert!(usecases.delete_code_file(created.id).is_ok());
    assert!(matches!(
        usecases.delete_code_file(created.id),
        Err(ApplicationError::FileNotFound(_))
    ));
}

#[test]
fn delete_of_absent_medium_is_io_error_and_keeps_entry() {
    let mut repository = MockCodeFileRepository::new();
    let id = fresh_id();
    repository.save(FileEntity::new(id, "a".to_string(), InMemorySource::new())).unwrap();
    let mut usecases = CodeFileUsecasesImpl::new(repository);
    assert!(matches!(usecases.delete_code_file(id), Err(ApplicationError::IoError(_))));
    assert!(usecases.get_code_file(id).is_ok());
}
