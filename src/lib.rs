//! Building and reading back the certificate table that an SEV-SNP host's
//! firmware keeps in its extended configuration.

pub mod table;
pub mod certs;
