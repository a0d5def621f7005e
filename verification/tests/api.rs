use chorus::api::common::status_is_success;
use chorus::api::email::adjust_email;
use chorus::api::messages::{
    apply_uploaded_filenames, attachment_content_disposition, attachment_part_name, check_bulk_delete, check_upload_status, next_upload, UploadAction,
    check_upload_url_count, check_upload_url_id, flatten, not_indexed_error,
    prepare_cloud_upload, search_outcome, send_method, MessageSearchEndpoint, SearchOutcome,
    SendMethod,
};
use chorus::api::mfa::{MfaToken, Timestamp};
use chorus::api::ratelimits::LimitType;
use chorus::api::reactions::ReactionMeta;
use chorus::api::relationships::{
    relationship_request, BulkRemoveRelationshipsQuery, CreateUserRelationshipSchema,
    RelationshipRequest, RelationshipType,
};
use chorus::api::schemas::MessageSendSchema;
use chorus::api::types::{
    CloudAttachment, CloudUploadAttachment, PartialDiscordFileAttachment, Snowflake,
};
use chorus::api::users::{
    add_member_response, check_user_modify, domain_proof_candidate, harvest_backends,
    harvest_response, AddMemberResponse, HarvestResponse,
};
use chorus::errors::{ChorusError, UserError};
use chorus::gateway::options::InstanceSoftware;
use chorus::voice::{VoiceGatewayMessage, WsMessage};

fn attachment(filename: &str, content: Vec<u8>) -> PartialDiscordFileAttachment {
    PartialDiscordFileAttachment {
        id: None,
        filename: filename.to_string(),
        description: Some("a file".to_string()),
        content_type: Some("text/plain".to_string()),
        size: None,
        url: None,
        proxy_url: None,
        height: None,
        width: None,
        ephemeral: None,
        duration_secs: None,
        waveform: None,
        is_clip: None,
        clip_created_at: None,
        clip_participant_ids: None,
        clip_application_id: None,
        title: None,
        uploaded_filename: None,
        content,
    }
}

fn message_with(attachments: Option<Vec<PartialDiscordFileAttachment>>) -> MessageSendSchema {
    MessageSendSchema::new(
        None,
        Some("hello".to_string()),
        None,
        None,
        None,
        None,
        None,
        None,
        None,
        None,
        attachments,
    )
}

#[test]
fn preprocessing_numbers_attachments_and_sets_sizes() {
    let mut message = message_with(Some(vec![
        attachment("a.txt", vec![1, 2, 3]),
        attachment("b.txt", vec![]),
        attachment("c.txt", vec![9; 10]),
    ]));
    assert!(message.has_attachments());
    message.preprocess_attachments();
    let attachments = message.take_attachments().unwrap();
    assert!(!message.has_attachments());
    let ids: Vec<Option<u64>> = attachments.iter().map(|a| a.id).collect();
    assert_eq!(ids, vec![Some(0), Some(1), Some(2)]);
    let sizes: Vec<Option<u64>> = attachments.iter().map(|a| a.size).collect();
    assert_eq!(sizes, vec![Some(3), Some(0), Some(10)]);
    assert_eq!(attachments[2].filename, "c.txt");
    assert_eq!(attachments[2].content, vec![9; 10]);
}

#[test]
fn preprocessing_without_attachments_changes_nothing() {
    let mut message = message_with(None);
    message.preprocess_attachments();
    assert!(!message.has_attachments());
    message.set_attachments(Some(vec![attachment("x", vec![1])]));
    assert!(message.has_attachments());
}

#[test]
fn send_methods() {
    assert_eq!(
        send_method(false, InstanceSoftware::Other),
        SendMethod::WithoutAttachments
    );
    assert_eq!(
        send_method(true, InstanceSoftware::SpacebarTypescript),
        SendMethod::MultipartAttachments
    );
    assert_eq!(
        send_method(true, InstanceSoftware::Symfonia),
        SendMethod::MultipartAttachments
    );
    assert_eq!(send_method(true, InstanceSoftware::Other), SendMethod::CloudAttachments);
}

#[test]
fn cloud_upload_preparation() {
    let mut with_size = attachment("big.bin", vec![1, 2]);
    with_size.size = Some(2048);
    with_size.id = Some(7);
    let (metadata, uploads) = prepare_cloud_upload(vec![with_size, attachment("s.txt", vec![5; 4])]);
    assert_eq!(metadata.len(), 2);
    assert!(metadata[0].content.is_empty());
    assert_eq!(metadata[0].id, Some(7));
    assert_eq!(metadata[0].description, Some("a file".to_string()));
    assert_eq!(uploads[0].file_size, 2048);
    assert_eq!(uploads[0].content, vec![1, 2]);
    assert_eq!(uploads[1].file_size, 4);
    assert_eq!(uploads[1].filename, "s.txt");
}

#[test]
fn cloud_upload_from_attachment() {
    let upload = CloudUploadAttachment::from_attachment(attachment("f", vec![0; 6]));
    assert_eq!(upload.file_size, 6);
    assert_eq!(upload.filename, "f");
}

#[test]
fn upload_url_checks() {
    assert_eq!(check_upload_url_count(2, 2), Ok(()));
    assert!(matches!(
        check_upload_url_count(1, 2),
        Err(ChorusError::InvalidResponse { .. })
    ));
    assert_eq!(check_upload_url_id(Some(3), Some(3)), Ok(()));
    assert!(matches!(
        check_upload_url_id(Some(3), None),
        Err(ChorusError::InvalidResponse { .. })
    ));
}

#[test]
fn uploaded_filenames_are_recorded() {
    let mut metadata = vec![attachment("a", vec![]), attachment("b", vec![])];
    let uploaded = vec![CloudAttachment {
        id: Some(0),
        upload_url: "https://bucket.example/0".to_string(),
        upload_filename: "uploads/0/a".to_string(),
    }];
    apply_uploaded_filenames(&mut metadata, &uploaded);
    assert_eq!(metadata[0].uploaded_filename, Some("uploads/0/a".to_string()));
    assert_eq!(metadata[1].uploaded_filename, None);
}

#[test]
fn search_endpoints_and_outcomes() {
    assert_eq!(
        MessageSearchEndpoint::Channel(Snowflake(5)).limit_type(),
        LimitType::Channel(Snowflake(5))
    );
    assert_eq!(
        MessageSearchEndpoint::GuildChannel(Snowflake(6)).limit_type(),
        LimitType::Guild(Snowflake(6))
    );
    assert!(matches!(
        search_outcome::<u8>(false, Some(vec![vec![1]]), None, None),
        SearchOutcome::Unexpected
    ));
    match search_outcome(true, Some(vec![vec![1, 2], vec![], vec![3]]), Some(1), Some(2)) {
        SearchOutcome::Messages(m) => assert_eq!(m, vec![1, 2, 3]),
        _ => panic!("messages expected"),
    }
    assert!(matches!(
        search_outcome::<u8>(true, None, Some(110000), Some(15)),
        SearchOutcome::NotIndexed { code: 110000, retry_after: 15 }
    ));
    assert!(matches!(
        search_outcome::<u8>(true, None, Some(110000), None),
        SearchOutcome::Unexpected
    ));
    assert_eq!(flatten(vec![vec!['a'], vec!['b', 'c']]), vec!['a', 'b', 'c']);
}

#[test]
fn not_indexed_message() {
    assert_eq!(
        not_indexed_error(110000, 15),
        ChorusError::InvalidResponse {
            error: "Index not yet available. Try again later. Code: 110000. Retry after 15s"
                .to_string()
        }
    );
}

#[test]
fn multipart_part_names() {
    assert_eq!(attachment_part_name(0), "files[0]");
    assert_eq!(attachment_part_name(12), "files[12]");
    assert_eq!(
        attachment_content_disposition("files[0]", "a.txt"),
        "form-data; name=\"files[0]\"; filename=\"a.txt\""
    );
}

#[test]
fn relationship_codes_and_query() {
    assert_eq!(RelationshipType::Suggestion.code(), 6);
    assert_eq!(RelationshipType::NoRelationship.code(), 0);
    let query = BulkRemoveRelationshipsQuery {
        relationship_type: Some(RelationshipType::Incoming),
        only_spam: Some(false),
    };
    assert_eq!(
        query.to_query(),
        vec![
            ("relationship_type", "3".to_string()),
            ("only_spam", "false".to_string())
        ]
    );
    assert_eq!(BulkRemoveRelationshipsQuery::default().to_query(), vec![]);
    let spam_only = BulkRemoveRelationshipsQuery {
        relationship_type: None,
        only_spam: Some(true),
    };
    assert_eq!(spam_only.to_query(), vec![("only_spam", "true".to_string())]);
}

#[test]
fn relationship_requests() {
    assert_eq!(
        relationship_request(RelationshipType::NoRelationship),
        RelationshipRequest::Delete
    );
    assert_eq!(
        relationship_request(RelationshipType::Incoming),
        RelationshipRequest::Put(CreateUserRelationshipSchema::default())
    );
    assert_eq!(
        relationship_request(RelationshipType::Blocked),
        RelationshipRequest::Put(CreateUserRelationshipSchema {
            relationship_type: Some(RelationshipType::Blocked),
            from_friend_suggestion: None,
            friend_token: None,
        })
    );
    assert_eq!(
        relationship_request(RelationshipType::Implicit),
        RelationshipRequest::Nothing
    );
}

#[test]
fn user_modification_needs_password() {
    assert_eq!(
        check_user_modify(true, false, false, false, false, false),
        Err(ChorusError::PasswordRequired)
    );
    assert_eq!(check_user_modify(false, false, true, false, false, true), Ok(()));
    assert_eq!(check_user_modify(false, false, false, false, false, false), Ok(()));
}

#[test]
fn harvest_and_member_responses() {
    assert_eq!(harvest_backends::<u8>(vec![]), None);
    assert_eq!(harvest_backends(vec![1, 2]), Some(vec![1, 2]));
    assert_eq!(harvest_response(204), HarvestResponse::NoHarvest);
    assert_eq!(harvest_response(200), HarvestResponse::ParseHarvest);
    assert_eq!(add_member_response(200), AddMemberResponse::Joined);
    assert_eq!(add_member_response(204), AddMemberResponse::AlreadyAMember);
    assert_eq!(add_member_response(403), AddMemberResponse::UnexpectedStatus);
}

#[test]
fn domain_proof_only_from_bad_request() {
    let bad_request = ChorusError::ReceivedErrorCode {
        error_code: 400,
        error: "{\"proof\":\"abc\"}".to_string(),
    };
    assert_eq!(
        domain_proof_candidate(&bad_request),
        Some(&"{\"proof\":\"abc\"}".to_string())
    );
    let forbidden = ChorusError::ReceivedErrorCode {
        error_code: 403,
        error: "no".to_string(),
    };
    assert_eq!(domain_proof_candidate(&forbidden), None);
    assert_eq!(domain_proof_candidate(&ChorusError::NoResponse), None);
}

#[test]
fn email_adjustment() {
    assert_eq!(adjust_email("me@mail.de"), Ok("me@mail.de".to_string()));
    assert_eq!(adjust_email(""), Err(UserError::InvalidEmail));
    assert_eq!(adjust_email("no-at-sign"), Err(UserError::InvalidEmail));
}

#[test]
fn mfa_token_validity() {
    let token = MfaToken {
        token: "t".to_string(),
        expires_at: Timestamp { secs: 100, nanos: 500 },
    };
    assert!(token.is_valid_at(Timestamp { secs: 99, nanos: 999 }));
    assert!(token.is_valid_at(Timestamp { secs: 100, nanos: 499 }));
    assert!(!token.is_valid_at(Timestamp { secs: 100, nanos: 500 }));
    assert!(!token.is_valid_at(Timestamp { secs: 101, nanos: 0 }));
    let expired = MfaToken {
        token: "old".to_string(),
        expires_at: Timestamp { secs: 0, nanos: 0 },
    };
    assert!(!expired.is_valid());
}

#[test]
fn success_statuses() {
    assert!(status_is_success(200));
    assert!(status_is_success(204));
    assert!(!status_is_success(404));
    assert!(!status_is_success(199));
    assert!(status_is_success(2));
}

#[test]
fn reaction_paths() {
    let meta = ReactionMeta {
        message_id: Snowflake(22),
        channel_id: Snowflake(11),
    };
    assert_eq!(meta.reactions_path(), "/channels/11/messages/22/reactions");
}

#[test]
fn voice_messages() {
    let message = VoiceGatewayMessage("{\"op\":8}".to_string());
    assert_eq!(
        message.clone().into_ws_message(),
        WsMessage::Text("{\"op\":8}".to_string())
    );
    assert_eq!(
        VoiceGatewayMessage::from_ws_message(WsMessage::Text("x".to_string())),
        VoiceGatewayMessage("x".to_string())
    );
    assert_eq!(
        VoiceGatewayMessage::from_ws_message(WsMessage::Binary(vec![1, 2])),
        VoiceGatewayMessage(String::new())
    );
}

#[test]
fn preprocessing_twice_is_preprocessing_once() {
    let mut message = message_with(Some(vec![
        attachment("a.txt", vec![1, 2]),
        attachment("b.txt", vec![3]),
    ]));
    message.preprocess_attachments();
    let once = message.take_attachments().unwrap();
    message.set_attachments(Some(once.clone()));
    message.preprocess_attachments();
    let twice = message.take_attachments().unwrap();
    for (a, b) in once.iter().zip(twice.iter()) {
        assert_eq!(a.id, b.id);
        assert_eq!(a.size, b.size);
        assert_eq!(a.filename, b.filename);
        assert_eq!(a.content, b.content);
    }
}

#[test]
fn bulk_delete_needs_two_messages() {
    assert_eq!(check_bulk_delete(2), Ok(()));
    assert_eq!(
        check_bulk_delete(1),
        Err(ChorusError::InvalidArguments {
            error: "`messages` must contain at least 2 entries.".to_string()
        })
    );
    assert!(check_bulk_delete(0).is_err());
}

#[test]
fn upload_status_checks() {
    assert_eq!(check_upload_status(200, String::new()), Ok(()));
    assert_eq!(
        check_upload_status(403, "denied".to_string()),
        Err(ChorusError::ReceivedErrorCode {
            error_code: 403,
            error: "denied".to_string()
        })
    );
}

#[test]
fn relationship_codes_decode() {
    assert_eq!(RelationshipType::from_code(3), Some(RelationshipType::Incoming));
    assert_eq!(RelationshipType::from_code(0), Some(RelationshipType::NoRelationship));
    assert_eq!(RelationshipType::from_code(7), None);
    for t in [
        RelationshipType::Suggestion,
        RelationshipType::Implicit,
        RelationshipType::Outgoing,
        RelationshipType::Incoming,
        RelationshipType::Blocked,
        RelationshipType::Friends,
        RelationshipType::NoRelationship,
    ] {
        assert_eq!(RelationshipType::from_code(t.code()), Some(t));
    }
}

#[test]
fn uploads_go_in_order_and_stop_at_first_failure() {
    assert!(matches!(next_upload(0, 2, Ok(())), UploadAction::Upload(0)));
    assert!(matches!(next_upload(1, 2, Ok(())), UploadAction::Upload(1)));
    assert!(matches!(next_upload(2, 2, Ok(())), UploadAction::Finish));
    match next_upload(1, 2, Err(ChorusError::NoResponse)) {
        UploadAction::Fail(e) => assert_eq!(e, ChorusError::NoResponse),
        _ => panic!("the failure must stop the uploads"),
    }
}

#[test]
fn token_expired_before_epoch_is_invalid() {
    let token = MfaToken {
        token: "t".to_string(),
        expires_at: Timestamp { secs: -1, nanos: 0 },
    };
    assert!(!token.is_valid());
    let far = MfaToken {
        token: "t".to_string(),
        expires_at: Timestamp { secs: i64::MAX, nanos: 0 },
    };
    assert!(far.is_valid());
}
