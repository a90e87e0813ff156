use vstd::prelude::*;

use crate::errors::ErrorKind;

verus! {

/// Application-wide settings that the supervisor reads.
pub struct AppConfig {
    id: String,
}

impl AppConfig {
    /// The application identifier held.
    pub closed spec fn id_view(&self) -> Seq<char> {
        self.id@
    }

    /// Settings for the application with identifier `id`.
    pub fn new(id: String) -> (r: AppConfig)
        ensures
            r.id_view() == id@,
    {
        AppConfig { id }
    }

    /// The application identifier.
    pub fn id(&self) -> (r: String)
        ensures
            r@ == self.id_view(),
    {
        self.id.clone()
    }
}

/// Settings of the Matrix client.
pub struct MatrixConfig {
    /// The account the client signs in as.
    pub user_id: String,
}

/// A Matrix client, built from its settings.
pub struct MatrixBot {
    user_id: String,
}

impl MatrixBot {
    /// The account this client signs in as.
    pub closed spec fn user_id_view(&self) -> Seq<char> {
        self.user_id@
    }

    /// A client for the account in `config`.
    pub fn new(config: &MatrixConfig) -> (r: MatrixBot)
        ensures
            r.user_id_view() == config.user_id@,
    {
        MatrixBot { user_id: config.user_id.clone() }
    }

    /// The account this client signs in as.
    pub fn user_id(&self) -> (r: String)
        ensures
            r@ == self.user_id_view(),
    {
        self.user_id.clone()
    }
}

/// Sets up the Matrix bot; building it from its settings always succeeds.
pub fn setup_matrix(config: &MatrixConfig) -> (r: Result<MatrixBot, ErrorKind>)
    ensures
        r matches Ok(bot) && bot.user_id_view() == config.user_id@,
{
    let bot = MatrixBot::new(config);
    Ok(bot)
}

} // verus!
