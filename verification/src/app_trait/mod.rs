//! The values exchanged with the services a use case relies on: the
//! password hasher, the token issuer, the transaction manager, the search
//! engine and the music scanner.
pub mod file_scanner;
pub mod jwt_manager;
pub mod music_info_provider;
pub mod password_hasher;
pub mod search_engine;
pub mod tx_context;
