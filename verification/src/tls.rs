//! Certificates and keys of a session, once their files have been read.

use crate::config::Config;
use crate::connection::ConnectionError;
use vstd::prelude::*;

verus! {

/// What a session needs for TLS.
#[derive(Clone, Debug, PartialEq, Eq)]
pub struct TlsMaterial {
    /// Certificate authority to trust, if one is configured.
    pub ca: Option<Vec<u8>>,
    /// Certificate and key of the client, if it authenticates.
    pub client_auth: Option<(Vec<u8>, Vec<u8>)>,
}

impl TlsMaterial {
    /// Whether the connection uses TLS: it does as soon as a certificate
    /// authority or a client certificate is there.
    pub open spec fn in_use(&self) -> bool {
        self.ca is Some || self.client_auth is Some
    }

    /// Tests whether the connection uses TLS.
    pub fn uses_tls(&self) -> (used: bool)
        ensures
            used == self.in_use(),
    {
        self.ca.is_some() || self.client_auth.is_some()
    }
}

/// Whether every file that the settings name could be read. A file's
/// contents are `None` where reading it failed; for a file that the settings
/// do not name they do not matter. The key is wanted whenever a client
/// certificate is configured.
pub open spec fn all_read(
    config: &Config,
    ca: Option<Vec<u8>>,
    cert: Option<Vec<u8>>,
    key: Option<Vec<u8>>,
) -> bool {
    &&& config.ca_file is Some ==> ca is Some
    &&& config.client_cert is Some ==> cert is Some && key is Some
}

/// Puts together what a session needs for TLS from the contents of the files
/// that the settings name, or fails with `Io` if one of them could not be
/// read.
pub fn tls_material(
    config: &Config,
    ca: Option<Vec<u8>>,
    cert: Option<Vec<u8>>,
    key: Option<Vec<u8>>,
) -> (material: Result<TlsMaterial, ConnectionError>)
    ensures
        material is Ok <==> all_read(config, ca, cert, key),
        material is Err ==> material == Err::<TlsMaterial, ConnectionError>(ConnectionError::Io),
        material matches Ok(m) ==> {
            &&& m.ca == if config.ca_file is Some {
                ca
            } else {
                None
            }
            &&& m.client_auth == if config.client_cert is Some {
                Some((cert->0, key->0))
            } else {
                None
            }
        },
{
    let ca = if config.ca_file.is_some() {
        match ca {
            Some(ca) => Some(ca),
            None => {
                return Err(ConnectionError::Io);
            },
        }
    } else {
        None
    };
    let client_auth = if config.client_cert.is_some() {
        match (cert, key) {
            (Some(cert), Some(key)) => Some((cert, key)),
            _ => {
                return Err(ConnectionError::Io);
            },
        }
    } else {
        None
    };
    Ok(TlsMaterial { ca, client_auth })
}

} // verus!
