//! The resources of ACME version 2.

pub mod account;
pub mod authorization;
pub mod directory;
pub mod error;
pub mod identifier;
pub mod jose;
pub mod order;

pub use account::{
    Account, AccountOrders, AccountOrdersView, AccountStatus, AccountUpdate, AccountUpdateView,
    AccountView, NewAccount, NewAccountView,
};
pub use authorization::{
    Authorization, AuthorizationStatus, AuthorizationUpdate, AuthorizationUpdateView,
    AuthorizationView, Challenge, ChallengeStatus, ChallengeType, ChallengeView,
    NewAuthorization,
};
pub use directory::{Directory, DirectoryMetadata, DirectoryMetadataView, DirectoryView};
pub use error::{
    Error, ErrorType, ErrorTypeView, ErrorView, ProblemDocument, ProblemDocumentView,
    error_type_deserialize, error_type_serialize,
};
pub use identifier::{Identifier, IdentifierType, IdentifierView};
pub use jose::{
    JsonWebKey, JsonWebKeyView, JsonWebSignature, JsonWebSignatureProtected,
    JsonWebSignatureProtectedView, JsonWebSignatureView,
};
pub use order::{
    CertificateRevocation, CertificateRevocationReason, CertificateRevocationView, NewOrder,
    NewOrderView, Order, OrderFinalize, OrderFinalizeView, OrderStatus, OrderView,
    certificate_revocation_reason_deserialize, certificate_revocation_reason_serialize,
};
