use nebulon_sbt_identity::{ErrorCode, ErrorKind, SnsLink, SnsLinks};

const ALL: [ErrorCode; 18] = [
    ErrorCode::InactiveIdentity,
    ErrorCode::Unauthorized,
    ErrorCode::InvalidHandleFormat,
    ErrorCode::InvalidMintAddress,
    ErrorCode::InvalidTier,
    ErrorCode::TierNotEligible,
    ErrorCode::InsufficientBalance,
    ErrorCode::InsufficientTokenBalance,
    ErrorCode::AdminLimitReached,
    ErrorCode::AdminAlreadyExists,
    ErrorCode::AdminNotFound,
    ErrorCode::CannotRemoveOwner,
    ErrorCode::InsufficientFunds,
    ErrorCode::SnsNotFound,
    ErrorCode::SnsHandleMismatch,
    ErrorCode::HandleMismatch,
    ErrorCode::HexIdMismatch,
    ErrorCode::NoIdentificationProvided,
];

fn s(text: &str) -> String {
    text.to_string()
}

#[test]
fn every_error_has_its_message() {
    assert_eq!(ErrorCode::InactiveIdentity.message(), "This identity is no longer active.");
    assert_eq!(ErrorCode::Unauthorized.message(), "You are not authorized to perform this action.");
    assert_eq!(ErrorCode::InvalidHandleFormat.message(), "Handle format is invalid.");
    assert_eq!(ErrorCode::InvalidMintAddress.message(), "Mint address must end with 'NEBU'.");
    assert_eq!(ErrorCode::InvalidTier.message(), "Invalid tier specified.");
    assert_eq!(ErrorCode::TierNotEligible.message(), "This tier is not eligible for rewards.");
    assert_eq!(ErrorCode::InsufficientBalance.message(), "Insufficient SOL balance in global_state.");
    assert_eq!(
        ErrorCode::InsufficientTokenBalance.message(),
        "Insufficient token balance in reward vault."
    );
    assert_eq!(
        ErrorCode::AdminLimitReached.message(),
        "Maximum number of admins (10) has been reached."
    );
    assert_eq!(ErrorCode::AdminAlreadyExists.message(), "This admin already exists.");
    assert_eq!(ErrorCode::AdminNotFound.message(), "Admin not found in the list.");
    assert_eq!(
        ErrorCode::CannotRemoveOwner.message(),
        "Cannot remove the owner from the admin list."
    );
    assert_eq!(ErrorCode::InsufficientFunds.message(), "Insufficient NEBU for this action.");
    assert_eq!(ErrorCode::SnsNotFound.message(), "SNS record not found for this platform.");
    assert_eq!(ErrorCode::SnsHandleMismatch.message(), "SNS handle mismatch.");
    assert_eq!(ErrorCode::HandleMismatch.message(), "Handle mismatch.");
    assert_eq!(ErrorCode::HexIdMismatch.message(), "Hex ID mismatch.");
    assert_eq!(
        ErrorCode::NoIdentificationProvided.message(),
        "At least one identification method must be provided."
    );
}

#[test]
fn every_error_falls_into_one_family() {
    assert_eq!(ErrorCode::Unauthorized.kind(), ErrorKind::Authorization);
    assert_eq!(ErrorCode::CannotRemoveOwner.kind(), ErrorKind::Authorization);
    assert_eq!(ErrorCode::InvalidHandleFormat.kind(), ErrorKind::Validation);
    assert_eq!(ErrorCode::InvalidMintAddress.kind(), ErrorKind::Validation);
    assert_eq!(ErrorCode::InvalidTier.kind(), ErrorKind::Validation);
    assert_eq!(ErrorCode::AdminAlreadyExists.kind(), ErrorKind::Validation);
    assert_eq!(ErrorCode::NoIdentificationProvided.kind(), ErrorKind::Validation);
    assert_eq!(ErrorCode::InactiveIdentity.kind(), ErrorKind::State);
    assert_eq!(ErrorCode::TierNotEligible.kind(), ErrorKind::State);
    assert_eq!(ErrorCode::AdminNotFound.kind(), ErrorKind::State);
    assert_eq!(ErrorCode::SnsNotFound.kind(), ErrorKind::State);
    assert_eq!(ErrorCode::SnsHandleMismatch.kind(), ErrorKind::State);
    assert_eq!(ErrorCode::HandleMismatch.kind(), ErrorKind::State);
    assert_eq!(ErrorCode::HexIdMismatch.kind(), ErrorKind::State);
    assert_eq!(ErrorCode::InsufficientBalance.kind(), ErrorKind::Resource);
    assert_eq!(ErrorCode::InsufficientTokenBalance.kind(), ErrorKind::Resource);
    assert_eq!(ErrorCode::InsufficientFunds.kind(), ErrorKind::Resource);
    assert_eq!(ErrorCode::AdminLimitReached.kind(), ErrorKind::Resource);
    let mut messages: Vec<&str> = ALL.iter().map(|e| e.message()).collect();
    messages.sort();
    messages.dedup();
    assert_eq!(messages.len(), 18);
}

#[test]
fn links_behave_as_a_map_from_platform_to_handle() {
    let mut links = SnsLinks::new();
    assert_eq!(links.len(), 0);
    assert_eq!(links.get(&s("x")), None);
    links.insert(s("x"), s("one"));
    links.insert(s("github"), s("two"));
    links.insert(s("farcaster"), s("three"));
    assert_eq!(links.len(), 3);
    assert_eq!(links.get(&s("x")), Some(&s("one")));
    assert_eq!(links.get(&s("github")), Some(&s("two")));
    assert_eq!(links.get(&s("farcaster")), Some(&s("three")));
    assert_eq!(links.get(&s("X")), None);
    links.insert(s("github"), s("four"));
    assert_eq!(links.len(), 3);
    assert_eq!(links.get(&s("github")), Some(&s("four")));
    assert_eq!(links.get(&s("x")), Some(&s("one")));
    links.remove(&s("x"));
    assert_eq!(links.len(), 2);
    assert_eq!(links.get(&s("x")), None);
    assert_eq!(links.get(&s("github")), Some(&s("four")));
    assert_eq!(links.get(&s("farcaster")), Some(&s("three")));
    links.remove(&s("x"));
    assert_eq!(links.len(), 2);
}

#[test]
fn links_are_kept_in_the_order_of_first_linking() {
    let mut links = SnsLinks::new();
    links.insert(s("x"), s("one"));
    links.insert(s("github"), s("two"));
    links.insert(s("x"), s("changed"));
    assert_eq!(*links.link(0), SnsLink { platform: s("x"), handle: s("changed") });
    assert_eq!(*links.link(1), SnsLink { platform: s("github"), handle: s("two") });
    let copy = links.clone();
    assert_eq!(copy, links);
    assert_eq!(copy.get(&s("github")), Some(&s("two")));
}
