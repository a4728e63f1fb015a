//! The relay's settings, read once at start and never changed.
use vstd::prelude::*;
use vstd::string::*;

verus! {

/// The settings of the relay. The credential is used only to reach the
/// platform and to build public addresses.
pub struct UploadConfig {
    pub telegram_bot_token: String,
    pub chat_id: i64,
    pub max_concurrent_uploads: usize,
    pub host: String,
    pub port: String,
}

/// The address to listen on: host and port joined by a colon.
pub open spec fn bind_address_of(host: Seq<char>, port: Seq<char>) -> Seq<char> {
    host + seq![':'] + port
}

impl UploadConfig {
    /// The address the server listens on.
    pub fn bind_address(&self) -> (r: String)
        ensures
            r@ == bind_address_of(self.host@, self.port@),
    {
        let mut r = self.host.clone();
        r.append(":");
        r.append(self.port.as_str());
        proof {
            reveal_strlit(":");
            assert(r@ =~= bind_address_of(self.host@, self.port@));
        }
        r
    }
}

} // verus!
