//! The catalogue of installed applications, as the node's control interface
//! shows it.

use vstd::prelude::*;
use crate::middleware::Middleware;

verus! {

/// An installed application, as the server that hosts it describes it.
#[derive(Debug, PartialEq, Eq)]
pub struct App {
    pub id: String,
    pub name: String,
    pub description: String,
    pub version: String,
    pub author: String,
    pub icon_url: String,
}

impl Clone for App {
    fn clone(&self) -> (r: App)
        ensures
            r == *self,
    {
        App {
            id: self.id.clone(),
            name: self.name.clone(),
            description: self.description.clone(),
            version: self.version.clone(),
            author: self.author.clone(),
            icon_url: self.icon_url.clone(),
        }
    }
}

/// The applications that a server hosts, in the order in which it lists
/// them.
#[derive(Debug, PartialEq, Eq)]
pub struct Endpoints {
    pub apps: Vec<App>,
}

impl View for Endpoints {
    type V = Seq<App>;

    open spec fn view(&self) -> Seq<App> {
        self.apps@
    }
}

impl Clone for Endpoints {
    fn clone(&self) -> (r: Endpoints)
        ensures
            r@ == self@,
    {
        let mut apps: Vec<App> = Vec::new();
        let mut i: usize = 0;
        while i < self.apps.len()
            invariant
                0 <= i <= self.apps@.len(),
                apps@ == self.apps@.subrange(0, i as int),
            decreases self.apps@.len() - i,
        {
            apps.push(self.apps[i].clone());
            i = i + 1;
        }
        Endpoints { apps }
    }
}

impl Endpoints {
    /// The hosted applications, in the server's order.
    pub fn list(&self) -> (r: Vec<App>)
        ensures
            r@ == self@,
    {
        self.clone().apps
    }
}

/// An installed application, as the control interface describes it.
#[derive(Clone, Debug, PartialEq, Eq)]
pub struct LocalDapp {
    pub id: String,
    pub name: String,
    pub description: String,
    pub version: String,
    pub author: String,
    pub icon_url: String,
}

/// The description of `app` for the control interface: every field as it
/// is.
pub open spec fn descriptor_of(app: App) -> LocalDapp {
    LocalDapp {
        id: app.id,
        name: app.name,
        description: app.description,
        version: app.version,
        author: app.author,
        icon_url: app.icon_url,
    }
}

/// The descriptions of all of `apps`, in the same order.
pub open spec fn descriptors_of(apps: Seq<App>) -> Seq<LocalDapp> {
    apps.map_values(|app: App| descriptor_of(app))
}

/// Describes one application for the control interface.
pub fn describe(app: App) -> (r: LocalDapp)
    ensures
        r == descriptor_of(app),
{
    LocalDapp {
        id: app.id,
        name: app.name,
        description: app.description,
        version: app.version,
        author: app.author,
        icon_url: app.icon_url,
    }
}

/// The view of a server's catalogue that the control interface is given.
#[derive(Debug, PartialEq, Eq)]
pub struct DappsServiceWrapper {
    pub endpoints: Endpoints,
}

impl DappsServiceWrapper {
    /// The installed applications: one description for each application of
    /// the catalogue, in the catalogue's order, every field unchanged.
    pub fn list_dapps(&self) -> (r: Vec<LocalDapp>)
        ensures
            r@ == descriptors_of(self.endpoints@),
    {
        let apps = self.endpoints.list();
        let mut dapps: Vec<LocalDapp> = Vec::new();
        let mut i: usize = 0;
        while i < apps.len()
            invariant
                0 <= i <= apps@.len(),
                dapps@ == descriptors_of(apps@.subrange(0, i as int)),
            decreases apps@.len() - i,
        {
            dapps.push(describe(apps[i].clone()));
            i = i + 1;
        }
        dapps
    }
}

/// The control interface's view of a middleware: none where there is no
/// middleware, else one over the middleware's catalogue.
pub fn service<S, C, R, F, A>(middleware: &Option<Middleware<S, C, R, F, A>>) -> (r: Option<
    DappsServiceWrapper,
>)
    ensures
        r is Some == middleware is Some,
        r is Some ==> r->Some_0.endpoints@ == middleware->Some_0.endpoints@,
{
    match middleware {
        None => None,
        Some(m) => Some(DappsServiceWrapper { endpoints: m.endpoints() }),
    }
}

/// The installed applications that a middleware serves: none where there
/// is no middleware; else every application of its catalogue, described in
/// order and unchanged.
pub fn list_dapps<S, C, R, F, A>(middleware: &Option<Middleware<S, C, R, F, A>>) -> (r: Vec<
    LocalDapp,
>)
    ensures
        middleware is None ==> r@.len() == 0,
        middleware is Some ==> r@ == descriptors_of(middleware->Some_0.endpoints@),
{
    match service(middleware) {
        None => Vec::new(),
        Some(wrapper) => wrapper.list_dapps(),
    }
}

/// A catalogue and its listing have the same length, and each description
/// holds the fields of the application at its place.
pub proof fn listing_preserves_catalogue(apps: Seq<App>, i: int)
    requires
        0 <= i < apps.len(),
    ensures
        descriptors_of(apps).len() == apps.len(),
        descriptors_of(apps)[i].id == apps[i].id,
        descriptors_of(apps)[i].name == apps[i].name,
        descriptors_of(apps)[i].description == apps[i].description,
        descriptors_of(apps)[i].version == apps[i].version,
        descriptors_of(apps)[i].author == apps[i].author,
        descriptors_of(apps)[i].icon_url == apps[i].icon_url,
{
}

} // verus!
