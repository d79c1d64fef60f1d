use vstd::prelude::*;

verus! {

/// The credentials of the metadata service's client.
#[derive(Clone, Debug, PartialEq, Eq)]
pub struct Api {
    pub id: String,
    pub secret: String,
}

/// What an [`Api`] stands for in contracts.
pub struct ApiView {
    pub id: Seq<char>,
    pub secret: Seq<char>,
}

impl View for Api {
    type V = ApiView;

    open spec fn view(&self) -> ApiView {
        ApiView { id: self.id@, secret: self.secret@ }
    }
}

/// What the configuration file holds.
#[derive(Clone, Debug, PartialEq, Eq)]
pub struct Config {
    pub api: Api,
}

/// What a [`Config`] stands for in contracts.
pub struct ConfigView {
    pub api: ApiView,
}

impl View for Config {
    type V = ConfigView;

    open spec fn view(&self) -> ConfigView {
        ConfigView { api: self.api@ }
    }
}

/// How loading the configuration ended.
#[derive(Clone, Debug, PartialEq, Eq)]
pub enum LoadResult {
    /// The file was there and holds this configuration.
    Opened(Config),
    /// There was no file: a template was written to this path.
    Created(String),
}

/// What a [`LoadResult`] stands for in contracts.
pub enum LoadResultView {
    Opened(ConfigView),
    Created(Seq<char>),
}

impl View for LoadResult {
    type V = LoadResultView;

    open spec fn view(&self) -> LoadResultView {
        match self {
            LoadResult::Opened(config) => LoadResultView::Opened(config@),
            LoadResult::Created(path) => LoadResultView::Created(path@),
        }
    }
}

} // verus!
