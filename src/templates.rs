//! The named templates of a site: those of its own template directory, then
//! those of its theme.
use vstd::prelude::*;
use vstd::string::*;

verus! {

#[verifier::external_type_specification]
#[verifier::external_body]
#[verifier::reject_recursive_types(H)]
pub struct ExRamhorns<H>(ramhorns::Ramhorns<H>);

#[verifier::external_type_specification]
#[verifier::external_body]
pub struct ExRandomState(ahash::RandomState);

#[verifier::external_type_specification]
#[verifier::external_body]
pub struct ExTemplate<'tpl>(ramhorns::Template<'tpl>);

/// A loaded set of templates, looked up with aHash.
pub type Registry = ramhorns::Ramhorns<ahash::RandomState>;

/// The names of the templates that a loaded set holds.
pub uninterp spec fn template_names(r: Registry) -> Set<Seq<char>>;

/// The template that a loaded set holds under a name.
pub uninterp spec fn template_at(r: Registry, name: Seq<char>) -> ramhorns::Template<'static>;

/// Relies on `Ramhorns::get`, a lookup in the set's map from names to
/// templates: a template is found exactly when the set holds one of that
/// name, and it is the one held under it.
#[verifier::external_body]
fn find_template<'a>(r: &'a Registry, name: &str) -> (t: Option<&'a ramhorns::Template<'static>>)
    ensures
        t is Some <==> template_names(*r).contains(name@),
        t matches Some(x) ==> *x == template_at(*r, name@),
{
    r.get(name)
}

/// No template of the requested name was found.
#[derive(Clone, Debug, PartialEq, Eq)]
pub struct MissingTemplate {
    pub name: String,
}

/// The templates of the site's template directory and of its theme, where
/// either was loaded.
pub struct Templates {
    pub templates: Option<Registry>,
    pub theme: Option<Registry>,
}

/// Whether a set that may be missing holds a template of that name.
pub open spec fn holds_template(r: Option<Registry>, name: Seq<char>) -> bool {
    r matches Some(t) && template_names(t).contains(name)
}

impl Templates {
    pub fn new(templates: Option<Registry>, theme: Option<Registry>) -> (r: Templates)
        ensures
            r.templates == templates,
            r.theme == theme,
    {
        Templates { templates, theme }
    }

    /// The template of that name: the site's own where it has one, else the
    /// theme's; an error that names it where neither has one.
    pub fn get(&self, name: &str) -> (r: Result<&ramhorns::Template<'static>, MissingTemplate>)
        ensures
            r is Ok <==> holds_template(self.templates, name@) || holds_template(self.theme, name@),
            r is Err ==> r->Err_0.name@ == name@,
            holds_template(self.templates, name@) ==> (r is Ok && *r->Ok_0 == template_at(
                self.templates->0,
                name@,
            )),
            !holds_template(self.templates, name@) && holds_template(self.theme, name@) ==> (r is Ok
                && *r->Ok_0 == template_at(self.theme->0, name@)),
    {
        if let Some(t) = &self.templates {
            if let Some(found) = find_template(t, name) {
                return Ok(found);
            }
        }
        if let Some(t) = &self.theme {
            if let Some(found) = find_template(t, name) {
                return Ok(found);
            }
        }
        Err(MissingTemplate { name: String::from_str(name) })
    }
}

} // verus!
