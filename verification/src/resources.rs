//! The resources that the overlay shows: pages made of links and text, and
//! the way from one page to another and back.

use crate::matching::{captures_of, regex_captures};
use crate::text::{
    chars_of, decimal_digits, lines_of, lines_text, push_char, same_text, string_of, trim_chars,
    trim_text, u32_to_decimal,
};
use vstd::prelude::*;
use vstd::string::StringExecFns;

verus! {

/// What is added to the title of a link that bears the name of its own
/// target, so that the two can be told apart.
pub const APP_LINK_SUFFIX: &'static str = "_AppLink";

/// The key of the page that is shown first.
pub const ROOT_KEY: &'static str = "ROOT";

/// A page: the keys of the resources it is made of, in their order.
#[derive(Debug, Clone)]
pub struct ResourceCollection {
    resource_title: String,
    resource_list: Vec<String>,
}

/// A link to a page on the web.
#[derive(Debug, Clone)]
pub struct WebLinkResource {
    link_text: String,
    link_url: String,
}

/// A link to another page of the application.
#[derive(Debug, Clone)]
pub struct AppLinkResource {
    link_text: String,
    link_to: String,
}

/// Text that is shown as it is.
#[derive(Debug, Clone)]
pub struct MarkdownResource {
    resource_title: String,
    markdown_text: String,
}

/// The texts of a run of strings.
pub open spec fn texts(strings: Seq<String>) -> Seq<Seq<char>> {
    strings.map_values(|s: String| s@)
}

impl ResourceCollection {
    pub closed spec fn title(&self) -> Seq<char> {
        self.resource_title@
    }

    pub closed spec fn keys(&self) -> Seq<Seq<char>> {
        texts(self.resource_list@)
    }

    pub fn new(resource_title: &str, ordered_res_keys: Vec<String>) -> (collection: Self)
        ensures
            collection.title() == resource_title@,
            collection.keys() == texts(ordered_res_keys@),
    {
        ResourceCollection {
            resource_title: String::from_str(resource_title),
            resource_list: ordered_res_keys,
        }
    }

    pub fn get_title(&self) -> (title: String)
        ensures
            title@ == self.title(),
    {
        self.resource_title.clone()
    }

    /// The keys of the resources of the page, in their order.
    pub fn resource_keys(&self) -> (keys: &Vec<String>)
        ensures
            texts(keys@) == self.keys(),
    {
        &self.resource_list
    }
}

impl WebLinkResource {
    pub closed spec fn title(&self) -> Seq<char> {
        self.link_text@
    }

    pub closed spec fn url(&self) -> Seq<char> {
        self.link_url@
    }

    pub fn new(text: &str, url: &str) -> (link: Self)
        ensures
            link.title() == text@,
            link.url() == url@,
    {
        WebLinkResource { link_text: String::from_str(text), link_url: String::from_str(url) }
    }

    pub fn get_title(&self) -> (title: String)
        ensures
            title@ == self.title(),
    {
        self.link_text.clone()
    }

    pub fn get_url(&self) -> (url: String)
        ensures
            url@ == self.url(),
    {
        self.link_url.clone()
    }
}

impl AppLinkResource {
    pub closed spec fn title(&self) -> Seq<char> {
        self.link_text@
    }

    pub closed spec fn target(&self) -> Seq<char> {
        self.link_to@
    }

    pub fn new(resource_title: &str, link_to: &str) -> (link: Self)
        ensures
            link.title() == resource_title@,
            link.target() == link_to@,
    {
        AppLinkResource {
            link_text: String::from_str(resource_title),
            link_to: String::from_str(link_to),
        }
    }

    pub fn get_title(&self) -> (title: String)
        ensures
            title@ == self.title(),
    {
        self.link_text.clone()
    }

    /// The key of the page that the link leads to.
    pub fn get_target(&self) -> (target: String)
        ensures
            target@ == self.target(),
    {
        self.link_to.clone()
    }
}

impl MarkdownResource {
    pub closed spec fn title(&self) -> Seq<char> {
        self.resource_title@
    }

    pub closed spec fn text(&self) -> Seq<char> {
        self.markdown_text@
    }

    pub fn new(resource_title: &str, markdown_text: &str) -> (markdown: Self)
        ensures
            markdown.title() == resource_title@,
            markdown.text() == markdown_text@,
    {
        MarkdownResource {
            resource_title: String::from_str(resource_title),
            markdown_text: String::from_str(markdown_text),
        }
    }

    pub fn get_title(&self) -> (title: String)
        ensures
            title@ == self.title(),
    {
        self.resource_title.clone()
    }

    pub fn get_text(&self) -> (text: String)
        ensures
            text@ == self.text(),
    {
        self.markdown_text.clone()
    }
}

/// Anything that a page can hold, or a page itself.
#[derive(Debug, Clone)]
pub enum Resource {
    Collection(ResourceCollection),
    WebLink(WebLinkResource),
    AppLink(AppLinkResource),
    Markdown(MarkdownResource),
}

/// A resource, as a value of specifications.
pub enum ResourceView {
    Collection { title: Seq<char>, keys: Seq<Seq<char>> },
    WebLink { title: Seq<char>, url: Seq<char> },
    AppLink { title: Seq<char>, target: Seq<char> },
    Markdown { title: Seq<char>, text: Seq<char> },
}

impl ResourceView {
    /// The title of the resource, which is its key too.
    pub open spec fn title(self) -> Seq<char> {
        match self {
            ResourceView::Collection { title, .. } => title,
            ResourceView::WebLink { title, .. } => title,
            ResourceView::AppLink { title, .. } => title,
            ResourceView::Markdown { title, .. } => title,
        }
    }
}

impl Resource {
    pub open spec fn view(&self) -> ResourceView {
        match self {
            Resource::Collection(r) => ResourceView::Collection { title: r.title(), keys: r.keys() },
            Resource::WebLink(r) => ResourceView::WebLink { title: r.title(), url: r.url() },
            Resource::AppLink(r) => ResourceView::AppLink { title: r.title(), target: r.target() },
            Resource::Markdown(r) => ResourceView::Markdown { title: r.title(), text: r.text() },
        }
    }

    /// The title of the resource, which is its key too.
    pub open spec fn title(&self) -> Seq<char> {
        self@.title()
    }

    pub fn get_title(&self) -> (title: String)
        ensures
            title@ == self.title(),
    {
        match self {
            Resource::Collection(r) => r.get_title(),
            Resource::WebLink(r) => r.get_title(),
            Resource::AppLink(r) => r.get_title(),
            Resource::Markdown(r) => r.get_title(),
        }
    }
}

/// The resources as values of specifications.
pub open spec fn resource_views(resources: Seq<Resource>) -> Seq<ResourceView> {
    resources.map_values(|r: Resource| r@)
}

/// The resources by their keys, as a run of additions leaves them: a later
/// addition under a key replaces an earlier one.
pub open spec fn by_key(added: Seq<ResourceView>) -> Map<Seq<char>, ResourceView>
    decreases added.len(),
{
    if added.len() == 0 {
        Map::empty()
    } else {
        by_key(added.drop_last()).insert(added.last().title(), added.last())
    }
}

/// The resources after the first `upto` of `added` were added to them.
pub open spec fn with_added(
    available: Map<Seq<char>, ResourceView>,
    added: Seq<ResourceView>,
    upto: int,
) -> Map<Seq<char>, ResourceView>
    decreases upto,
{
    if upto <= 0 {
        available
    } else {
        with_added(available, added, upto - 1).insert(added[upto - 1].title(), added[upto - 1])
    }
}

/// All resources, the page that is shown, and the pages that were left on
/// the way to it.
#[derive(Debug)]
pub struct RessourcesSubsystem {
    available_ressources: Vec<Resource>,
    current_resource: Option<String>,
    visited_resources: Vec<String>,
}

impl RessourcesSubsystem {
    /// The resources there are, by their keys.
    pub closed spec fn available(&self) -> Map<Seq<char>, ResourceView> {
        by_key(resource_views(self.available_ressources@))
    }

    /// The key of the page that is shown.
    pub closed spec fn current(&self) -> Option<Seq<char>> {
        match self.current_resource {
            Some(key) => Some(key@),
            None => None,
        }
    }

    /// The keys of the pages that were left, oldest first.
    pub closed spec fn visited(&self) -> Seq<Seq<char>> {
        texts(self.visited_resources@)
    }

    /// No resources, no page.
    pub fn new() -> (subsystem: Self)
        ensures
            subsystem.available() == Map::<Seq<char>, ResourceView>::empty(),
            subsystem.current() is None,
            subsystem.visited() == Seq::<Seq<char>>::empty(),
    {
        let subsystem = RessourcesSubsystem {
            available_ressources: Vec::new(),
            current_resource: None,
            visited_resources: Vec::new(),
        };
        assert(texts(subsystem.visited_resources@) =~= Seq::<Seq<char>>::empty());
        assert(resource_views(subsystem.available_ressources@) =~= Seq::<ResourceView>::empty());
        subsystem
    }

    fn position(&self, key: &str) -> (found: Option<usize>)
        ensures
            found is Some <==> self.available().dom().contains(key@),
            found matches Some(i) ==> i < self.available_ressources@.len() && self.available()[key@]
                == self.available_ressources@[i as int]@,
    {
        let ghost views = resource_views(self.available_ressources@);
        let mut i: usize = self.available_ressources.len();
        assert(views.take(i as int) =~= views);
        while i > 0
            invariant
                i <= self.available_ressources@.len(),
                views == resource_views(self.available_ressources@),
                self.available().dom().contains(key@) <==> by_key(views.take(i as int)).dom().contains(
                    key@,
                ),
                self.available().dom().contains(key@) ==> self.available()[key@] == by_key(
                    views.take(i as int),
                )[key@],
            decreases i,
        {
            i = i - 1;
            let ghost upto = views.take(i + 1);
            assert(upto.drop_last() =~= views.take(i as int));
            assert(upto.last() == self.available_ressources@[i as int]@);
            let title = self.available_ressources[i].get_title();
            if same_text(title.as_str(), key) {
                return Some(i);
            }
        }
        None
    }

    /// Adds a resource under its title. A resource that was there under
    /// that title is replaced.
    pub fn insert(&mut self, resource: Resource)
        ensures
            final(self).available() == old(self).available().insert(resource.title(), resource@),
            final(self).current() == old(self).current(),
            final(self).visited() == old(self).visited(),
    {
        let ghost before = resource_views(self.available_ressources@);
        self.available_ressources.push(resource);
        assert(resource_views(self.available_ressources@).drop_last() =~= before);
    }

    /// Adds resources in their order.
    pub fn insert_all(&mut self, resources: Vec<Resource>)
        ensures
            final(self).available() == with_added(
                old(self).available(),
                resource_views(resources@),
                resources@.len() as int,
            ),
            final(self).current() == old(self).current(),
            final(self).visited() == old(self).visited(),
    {
        let mut resources = resources;
        let ghost all = resource_views(resources@);
        let ghost start = self.available();
        assert(all.len() == resources.len());
        assert(resource_views(resources@) =~= all.skip(0));
        let mut added: usize = 0;
        // taken from the front, so that they are added in their order
        while resources.len() > 0
            invariant
                all.len() <= usize::MAX,
                added + resources@.len() == all.len(),
                resource_views(resources@) == all.skip(added as int),
                self.available() == with_added(start, all, added as int),
                self.current() == old(self).current(),
                self.visited() == old(self).visited(),
            decreases resources.len(),
        {
            let ghost rest = resources@;
            let resource = resources.remove(0);
            assert(resource@ == all[added as int]) by {
                assert(resource_views(rest)[0] == all.skip(added as int)[0]);
            }
            assert(resource_views(resources@) =~= all.skip(added + 1)) by {
                assert forall|k: int| 0 <= k < resources@.len() implies resource_views(
                    resources@,
                )[k] == all.skip(added + 1)[k] by {
                    assert(resources@[k] == rest[k + 1]);
                    assert(resource_views(rest)[k + 1] == all.skip(added as int)[k + 1]);
                }
            }
            self.insert(resource);
            added = added + 1;
        }
    }

    /// Adds a page and gives back its key.
    pub fn add_resource_collection(&mut self, title: &str, resource_list: Vec<String>) -> (key: String)
        ensures
            key@ == title@,
            final(self).available() == old(self).available().insert(
                title@,
                ResourceView::Collection { title: title@, keys: texts(resource_list@) },
            ),
            final(self).current() == old(self).current(),
            final(self).visited() == old(self).visited(),
    {
        let collection = ResourceCollection::new(title, resource_list);
        self.insert(Resource::Collection(collection));
        String::from_str(title)
    }

    /// Adds a link to the web and gives back its key.
    pub fn add_web_link_resource(&mut self, text: &str, url: &str) -> (key: String)
        ensures
            key@ == text@,
            final(self).available() == old(self).available().insert(
                text@,
                ResourceView::WebLink { title: text@, url: url@ },
            ),
            final(self).current() == old(self).current(),
            final(self).visited() == old(self).visited(),
    {
        let link = WebLinkResource::new(text, url);
        self.insert(Resource::WebLink(link));
        String::from_str(text)
    }

    /// The key under which a link with this text to this page is kept: the
    /// text, or, where the text is the name of the page itself, the text
    /// with a suffix.
    pub open spec fn app_link_key(text: Seq<char>, link_to: Seq<char>) -> Seq<char> {
        if text == link_to {
            text + APP_LINK_SUFFIX@
        } else {
            text
        }
    }

    /// Adds a link to another page and gives back its key, which differs
    /// from the text where that would collide with the page's own key.
    pub fn add_app_link(&mut self, text: &str, link_to: &str) -> (key: String)
        ensures
            key@ == Self::app_link_key(text@, link_to@),
            final(self).available() == old(self).available().insert(
                Self::app_link_key(text@, link_to@),
                ResourceView::AppLink { title: Self::app_link_key(text@, link_to@), target: link_to@ },
            ),
            final(self).current() == old(self).current(),
            final(self).visited() == old(self).visited(),
    {
        let mut title = String::from_str(text);
        if same_text(text, link_to) {
            title.append(APP_LINK_SUFFIX);
        }
        let link = AppLinkResource::new(title.as_str(), link_to);
        self.insert(Resource::AppLink(link));
        title
    }

    /// Adds a text and gives back its key.
    pub fn add_markdown_resource(&mut self, res_title: &str, markdown_text: &str) -> (key: String)
        ensures
            key@ == res_title@,
            final(self).available() == old(self).available().insert(
                res_title@,
                ResourceView::Markdown { title: res_title@, text: markdown_text@ },
            ),
            final(self).current() == old(self).current(),
            final(self).visited() == old(self).visited(),
    {
        let markdown = MarkdownResource::new(res_title, markdown_text);
        self.insert(Resource::Markdown(markdown));
        String::from_str(res_title)
    }

    /// Whether showing `name` is a change: it is a key of a resource and not
    /// the page that is shown already.
    pub open spec fn switches_to(&self, name: Seq<char>) -> bool {
        self.current() != Some(name) && self.available().dom().contains(name)
    }

    /// Shows the page `name`, if there is such a resource and it is not
    /// shown already. With `save_last_in_history` the page that was shown
    /// is remembered as the last one left.
    pub fn set_current_resource(&mut self, name: &str, save_last_in_history: bool)
        ensures
            final(self).available() == old(self).available(),
            old(self).switches_to(name@) ==> final(self).current() == Some(name@) && final(self).visited() == (match old(self).current() {
                Some(left) if save_last_in_history => old(self).visited().push(left),
                _ => old(self).visited(),
            }),
            !old(self).switches_to(name@) ==> final(self).current() == old(self).current()
                && final(self).visited() == old(self).visited(),
    {
        let is_other = match &self.current_resource {
            Some(cur) => !same_text(cur.as_str(), name),
            None => true,
        };
        if is_other && self.position(name).is_some() {
            if save_last_in_history {
                match &self.current_resource {
                    Some(cur) => {
                        let left = cur.clone();
                        let ghost before = self.visited_resources@;
                        self.visited_resources.push(left);
                        assert(texts(self.visited_resources@) =~= texts(before).push(left@));
                    },
                    None => {},
                }
            }
            self.current_resource = Some(String::from_str(name));
        }
    }

    /// Goes back to the page that was left last, and forgets that it was
    /// left. Where that page is no resource any more, or is shown already,
    /// only the forgetting happens.
    pub fn go_back_visited_resources(&mut self)
        ensures
            final(self).available() == old(self).available(),
            old(self).visited().len() == 0 ==> final(self).visited() == old(self).visited()
                && final(self).current() == old(self).current(),
            old(self).visited().len() > 0 ==> final(self).visited() == old(self).visited().drop_last()
                && final(self).current() == (if old(self).switches_to(old(self).visited().last()) {
                Some(old(self).visited().last())
            } else {
                old(self).current()
            }),
    {
        let ghost before = self.visited_resources@;
        match self.visited_resources.pop() {
            Some(last) => {
                assert(texts(self.visited_resources@) =~= texts(before).drop_last());
                assert(last@ == texts(before).last());
                self.set_current_resource(last.as_str(), false);
            },
            None => {},
        }
    }

    /// The key of the page that was left last, if any.
    pub fn inspect_last_resource(&self) -> (last: Option<String>)
        ensures
            last is Some <==> self.visited().len() > 0,
            last matches Some(key) ==> key@ == self.visited().last(),
    {
        if self.visited_resources.len() == 0 {
            None
        } else {
            Some(self.visited_resources[self.visited_resources.len() - 1].clone())
        }
    }

    /// The resource under `key`, if there is one.
    pub fn get_resource(&self, key: &str) -> (resource: Option<&Resource>)
        ensures
            resource is Some <==> self.available().dom().contains(key@),
            resource matches Some(r) ==> r@ == self.available()[key@],
    {
        match self.position(key) {
            Some(i) => Some(&self.available_ressources[i]),
            None => None,
        }
    }

    /// The page that is shown, if one is shown and it is a resource.
    pub fn get_current_resource(&self) -> (resource: Option<&Resource>)
        ensures
            resource is Some <==> (self.current() matches Some(key)
                && self.available().dom().contains(key)),
            resource matches Some(r) ==> r@ == self.available()[self.current()->0],
    {
        match &self.current_resource {
            Some(key) => self.get_resource(key.as_str()),
            None => None,
        }
    }

    /// Takes what rendering the shown page came back with: the key of a
    /// link that was clicked, if any. Following a link remembers the page
    /// that is left.
    pub fn render_current_resource(&mut self, clicked: Option<String>)
        ensures
            final(self).available() == old(self).available(),
            clicked is None ==> final(self).current() == old(self).current() && final(self).visited()
                == old(self).visited(),
            clicked matches Some(name) ==> (if old(self).switches_to(name@) {
                final(self).current() == Some(name@) && final(self).visited() == (match old(self).current() {
                    Some(left) => old(self).visited().push(left),
                    None => old(self).visited(),
                })
            } else {
                final(self).current() == old(self).current() && final(self).visited() == old(self).visited()
            }),
    {
        match clicked {
            Some(name) => {
                self.set_current_resource(name.as_str(), true);
            },
            None => {},
        }
    }
}

/// Going to a page by a link and straight back leads to where one was, as
/// long as both pages are resources and differ.
pub proof fn lemma_there_and_back(
    start: RessourcesSubsystem,
    there: RessourcesSubsystem,
    back: RessourcesSubsystem,
    from: Seq<char>,
    to: Seq<char>,
)
    requires
        start.current() == Some(from),
        from != to,
        start.available().dom().contains(from),
        start.available().dom().contains(to),
        there.available() == start.available(),
        there.current() == Some(to),
        there.visited() == start.visited().push(from),
        back.available() == there.available(),
        back.visited() == there.visited().drop_last(),
        back.current() == (if there.switches_to(there.visited().last()) {
            Some(there.visited().last())
        } else {
            there.current()
        }),
    ensures
        back.current() == start.current(),
        back.visited() == start.visited(),
{
    assert(start.visited().push(from).drop_last() =~= start.visited());
}

// ---------------------------------------------------------------------------
// From files to resources
// ---------------------------------------------------------------------------

/// A tag within a line: `<kind=text>` or `<kind=text,data>`.
pub const TAG_PATTERN: &'static str = r"<([^=]+)=([^,>]+)(?:,([^,>]+))?>";

/// The kind of the tag of a link to another page.
pub const APP_LINK_KIND: &'static str = "AppLink";

/// The kind of the tag of a link to the web.
pub const WEB_LINK_KIND: &'static str = "WebLink";

/// What a tag says: its kind, its text and its data, each trimmed.
#[derive(Debug, Clone)]
pub struct ResourceTag {
    pub res_type: String,
    pub res_text: String,
    pub res_data: String,
}

/// A tag, as a value of specifications.
pub struct ResourceTagView {
    pub res_type: Seq<char>,
    pub res_text: Seq<char>,
    pub res_data: Seq<char>,
}

impl ResourceTag {
    pub open spec fn view(&self) -> ResourceTagView {
        ResourceTagView {
            res_type: self.res_type@,
            res_text: self.res_text@,
            res_data: self.res_data@,
        }
    }
}

pub open spec fn tag_view(tag: Option<ResourceTag>) -> Option<ResourceTagView> {
    match tag {
        Some(t) => Some(t@),
        None => None,
    }
}

/// The tag that the groups of a match stand for: the first group is the
/// kind, the second the text, the third, which need not be there, the data.
pub open spec fn tag_of_groups(groups: Seq<Option<Seq<char>>>) -> Option<ResourceTagView> {
    if groups.len() >= 3 {
        match (groups[1], groups[2]) {
            (Some(kind), Some(text)) => Some(
                ResourceTagView {
                    res_type: trim_text(kind),
                    res_text: trim_text(text),
                    res_data: if groups.len() >= 4 {
                        match groups[3] {
                            Some(data) => trim_text(data),
                            None => Seq::empty(),
                        }
                    } else {
                        Seq::empty()
                    },
                },
            ),
            _ => None,
        }
    } else {
        None
    }
}

/// The tag of a line, if it has one.
pub open spec fn tag_of_line(line: Seq<char>) -> Option<ResourceTagView> {
    match regex_captures(TAG_PATTERN@, line) {
        Some(groups) => tag_of_groups(groups),
        None => None,
    }
}

fn trimmed(text: &str) -> (out: String)
    ensures
        out@ == trim_text(text@),
{
    string_of(&trim_chars(&chars_of(text)))
}

pub open spec fn group_views(groups: Seq<Option<String>>) -> Seq<Option<Seq<char>>> {
    groups.map_values(
        |t: Option<String>|
            match t {
                Some(s) => Some(s@),
                None => None,
            },
    )
}

/// Reads a tag from the texts of the groups of a match.
pub fn tag_from_groups(groups: &Vec<Option<String>>) -> (tag: Option<ResourceTag>)
    ensures
        tag_view(tag) == tag_of_groups(group_views(groups@)),
{
    if groups.len() < 3 {
        return None;
    }
    let ghost views = group_views(groups@);
    assert(views[1] == (match groups@[1] {
        Some(s) => Some(s@),
        None => None::<Seq<char>>,
    }));
    assert(views[2] == (match groups@[2] {
        Some(s) => Some(s@),
        None => None::<Seq<char>>,
    }));
    match (&groups[1], &groups[2]) {
        (Some(kind), Some(text)) => {
            let res_data = if groups.len() >= 4 {
                assert(views[3] == (match groups@[3] {
                    Some(s) => Some(s@),
                    None => None::<Seq<char>>,
                }));
                match &groups[3] {
                    Some(data) => trimmed(data.as_str()),
                    None => String::new(),
                }
            } else {
                String::new()
            };
            Some(
                ResourceTag {
                    res_type: trimmed(kind.as_str()),
                    res_text: trimmed(text.as_str()),
                    res_data,
                },
            )
        },
        _ => None,
    }
}

/// The tag of a line, if it has one.
pub fn resource_tag_of(line: &str) -> (tag: Option<ResourceTag>)
    ensures
        tag_view(tag) == tag_of_line(line@),
{
    match captures_of(TAG_PATTERN, line) {
        Some(groups) => tag_from_groups(&groups),
        None => None,
    }
}

/// The link that a tag stands for; none for a tag of another kind.
pub open spec fn link_of(tag: ResourceTagView) -> Option<ResourceView> {
    if tag.res_type == APP_LINK_KIND@ {
        Some(
            ResourceView::AppLink {
                title: RessourcesSubsystem::app_link_key(tag.res_text, tag.res_data),
                target: tag.res_data,
            },
        )
    } else if tag.res_type == WEB_LINK_KIND@ {
        Some(ResourceView::WebLink { title: tag.res_text, url: tag.res_data })
    } else {
        None
    }
}

/// Where the reading of a file stands.
pub struct Reading {
    /// The resources found so far.
    pub resources: Seq<ResourceView>,
    /// The keys of the page, in order.
    pub keys: Seq<Seq<char>>,
    /// The text that was gathered since the last link.
    pub text: Seq<char>,
    /// How many texts the file gave so far.
    pub count: u32,
}

/// The key of the text with this number of the file with this name.
pub open spec fn text_key(file_name: Seq<char>, count: u32) -> Seq<char> {
    "inner_"@ + file_name + "_md_"@ + decimal_digits(count as nat)
}

/// The reading after the gathered text, if any, became a resource.
pub open spec fn flushed(reading: Reading, file_name: Seq<char>) -> Reading {
    if reading.text.len() == 0 {
        reading
    } else {
        Reading {
            resources: reading.resources.push(
                ResourceView::Markdown {
                    title: text_key(file_name, reading.count),
                    text: reading.text,
                },
            ),
            keys: reading.keys.push(text_key(file_name, reading.count)),
            text: Seq::empty(),
            count: if reading.count < u32::MAX {
                (reading.count + 1) as u32
            } else {
                reading.count
            },
        }
    }
}

/// A line of a file with the tag that was found in it, if any.
#[derive(Debug, Clone)]
pub struct TaggedLine {
    pub text: String,
    pub tag: Option<ResourceTag>,
}

/// A line with its tag, as a value of specifications.
pub struct TaggedLineView {
    pub text: Seq<char>,
    pub tag: Option<ResourceTagView>,
}

impl TaggedLine {
    pub open spec fn view(&self) -> TaggedLineView {
        TaggedLineView { text: self.text@, tag: tag_view(self.tag) }
    }
}

pub open spec fn line_views(lines: Seq<TaggedLine>) -> Seq<TaggedLineView> {
    lines.map_values(|line: TaggedLine| line@)
}

/// The reading after one more line: a line with the tag of a link adds
/// the link and ends the text before it; any other line is text, also one
/// whose tag is of no known kind. The link is added first and the text
/// that stood before it after it, so where the two have one key the text
/// is what stays under it; on the page the text comes first.
pub open spec fn read_line(reading: Reading, file_name: Seq<char>, line: TaggedLineView) -> Reading {
    let link = match line.tag {
        Some(tag) => link_of(tag),
        None => None,
    };
    match link {
        Some(resource) => {
            let after = flushed(
                Reading {
                    resources: reading.resources.push(resource),
                    keys: reading.keys,
                    text: reading.text,
                    count: reading.count,
                },
                file_name,
            );
            Reading {
                resources: after.resources,
                keys: after.keys.push(resource.title()),
                text: after.text,
                count: after.count,
            }
        },
        None => Reading {
            resources: reading.resources,
            keys: reading.keys,
            text: reading.text + line.text + seq!['\n'],
            count: reading.count,
        },
    }
}

pub open spec fn read_lines(file_name: Seq<char>, lines: Seq<TaggedLineView>, upto: int) -> Reading
    decreases upto,
{
    if upto <= 0 {
        Reading { resources: Seq::empty(), keys: Seq::empty(), text: Seq::empty(), count: 0 }
    } else {
        read_line(read_lines(file_name, lines, upto - 1), file_name, lines[upto - 1])
    }
}

/// The resources of one page, from its lines and their tags: its links
/// and texts, each text behind the link that ended it, the text after the
/// last link too, and last the page that holds the keys of them all in
/// the order of the file, under the name of the file.
pub open spec fn page_resources(file_name: Seq<char>, lines: Seq<TaggedLineView>) -> Seq<
    ResourceView,
> {
    let end = flushed(read_lines(file_name, lines, lines.len() as int), file_name);
    end.resources.push(ResourceView::Collection { title: file_name, keys: end.keys })
}

/// The lines of the contents of a file, each with its tag.
pub open spec fn tagged_lines(contents: Seq<char>) -> Seq<TaggedLineView> {
    lines_text(contents).map_values(
        |line: Seq<char>| (TaggedLineView { text: line, tag: tag_of_line(line) }),
    )
}

/// The resources of one file.
pub open spec fn file_resources(file_name: Seq<char>, contents: Seq<char>) -> Seq<ResourceView> {
    page_resources(file_name, tagged_lines(contents))
}

fn flush_text(
    resources: &mut Vec<Resource>,
    keys: &mut Vec<String>,
    text: &mut String,
    count: &mut u32,
    file_name: &str,
)
    ensures
        (Reading {
            resources: resource_views(final(resources)@),
            keys: texts(final(keys)@),
            text: final(text)@,
            count: *final(count),
        }) == flushed(
            Reading {
                resources: resource_views(old(resources)@),
                keys: texts(old(keys)@),
                text: old(text)@,
                count: *old(count),
            },
            file_name@,
        ),
{
    if text.as_str().unicode_len() == 0 {
        return ;
    }
    let mut key = String::from_str("inner_");
    key.append(file_name);
    key.append("_md_");
    key.append(u32_to_decimal(*count).as_str());
    if *count < u32::MAX {
        *count = *count + 1;
    }
    let ghost before_resources = resource_views(resources@);
    let ghost before_keys = texts(keys@);
    let markdown = MarkdownResource::new(key.as_str(), text.as_str());
    resources.push(Resource::Markdown(markdown));
    assert(resource_views(resources@) =~= before_resources.push(
        ResourceView::Markdown { title: key@, text: text@ },
    ));
    keys.push(key);
    assert(texts(keys@) =~= before_keys.push(key@));
    *text = String::new();
}

/// Makes the resources of one page from its lines, each given with the
/// tag that was found in it.
pub fn resources_of_lines(file_name: &str, lines: &Vec<TaggedLine>) -> (resources: Vec<Resource>)
    ensures
        resource_views(resources@) == page_resources(file_name@, line_views(lines@)),
{
    let ghost views = line_views(lines@);
    let mut resources: Vec<Resource> = Vec::new();
    let mut keys: Vec<String> = Vec::new();
    let mut text = String::new();
    let mut count: u32 = 0;
    assert(resource_views(resources@) =~= Seq::<ResourceView>::empty());
    assert(texts(keys@) =~= Seq::<Seq<char>>::empty());
    let mut i: usize = 0;
    while i < lines.len()
        invariant
            i <= lines@.len() == views.len(),
            views == line_views(lines@),
            (Reading {
                resources: resource_views(resources@),
                keys: texts(keys@),
                text: text@,
                count,
            }) == read_lines(file_name@, views, i as int),
        decreases lines.len() - i,
    {
        assert(views[i as int] == lines@[i as int]@);
        let line = lines[i].text.as_str();
        let link: Option<Resource> = match &lines[i].tag {
            Some(tag) => {
                if same_text(tag.res_type.as_str(), APP_LINK_KIND) {
                    let mut title = tag.res_text.clone();
                    if same_text(tag.res_text.as_str(), tag.res_data.as_str()) {
                        title.append(APP_LINK_SUFFIX);
                    }
                    Some(
                        Resource::AppLink(
                            AppLinkResource::new(title.as_str(), tag.res_data.as_str()),
                        ),
                    )
                } else if same_text(tag.res_type.as_str(), WEB_LINK_KIND) {
                    Some(
                        Resource::WebLink(
                            WebLinkResource::new(tag.res_text.as_str(), tag.res_data.as_str()),
                        ),
                    )
                } else {
                    None
                }
            },
            None => None,
        };
        match link {
            Some(resource) => {
                let ghost before_resources = resource_views(resources@);
                let key = resource.get_title();
                resources.push(resource);
                assert(resource_views(resources@) =~= before_resources.push(resource@));
                flush_text(&mut resources, &mut keys, &mut text, &mut count, file_name);
                let ghost before_keys = texts(keys@);
                keys.push(key);
                assert(texts(keys@) =~= before_keys.push(key@));
            },
            None => {
                let ghost before_text = text@;
                text.append(line);
                push_char(&mut text, '\n');
                assert(text@ =~= before_text + line@ + seq!['\n']);
            },
        }
        i = i + 1;
    }
    flush_text(&mut resources, &mut keys, &mut text, &mut count, file_name);
    let ghost before_resources = resource_views(resources@);
    let page = ResourceCollection::new(file_name, keys);
    resources.push(Resource::Collection(page));
    assert(resource_views(resources@) =~= before_resources.push(
        ResourceView::Collection { title: file_name@, keys: page.keys() },
    ));
    resources
}

/// Reads the resources of one file from its name and its contents: looks
/// for the tag of every line and makes the page of the lines.
pub fn read_resource_file(file_name: &str, contents: &str) -> (resources: Vec<Resource>)
    ensures
        resource_views(resources@) == file_resources(file_name@, contents@),
{
    let lines = lines_of(contents);
    let ghost line_texts = lines_text(contents@);
    let mut tagged: Vec<TaggedLine> = Vec::new();
    let mut i: usize = 0;
    while i < lines.len()
        invariant
            i <= lines@.len() == line_texts.len(),
            forall|k: int| 0 <= k < lines@.len() ==> lines@[k]@ == line_texts[k],
            tagged@.len() == i,
            forall|k: int|
                0 <= k < i ==> (#[trigger] tagged@[k])@ == (TaggedLineView {
                    text: line_texts[k],
                    tag: tag_of_line(line_texts[k]),
                }),
        decreases lines.len() - i,
    {
        let tag = resource_tag_of(lines[i].as_str());
        tagged.push(TaggedLine { text: lines[i].clone(), tag });
        i = i + 1;
    }
    assert(line_views(tagged@) =~= tagged_lines(contents@));
    resources_of_lines(file_name, &tagged)
}

/// The resources after the first `upto` files were read and their
/// resources added.
pub open spec fn with_files(
    available: Map<Seq<char>, ResourceView>,
    files: Seq<(String, String)>,
    upto: int,
) -> Map<Seq<char>, ResourceView>
    decreases upto,
{
    if upto <= 0 {
        available
    } else {
        let resources = file_resources(files[upto - 1].0@, files[upto - 1].1@);
        with_added(with_files(available, files, upto - 1), resources, resources.len() as int)
    }
}

impl RessourcesSubsystem {
    /// Reads every file, each given by its name and its contents, and adds
    /// what it holds.
    pub fn parse_into_resources(&mut self, md_file_list: Vec<(String, String)>)
        ensures
            final(self).available() == with_files(
                old(self).available(),
                md_file_list@,
                md_file_list@.len() as int,
            ),
            final(self).current() == old(self).current(),
            final(self).visited() == old(self).visited(),
    {
        let mut i: usize = 0;
        while i < md_file_list.len()
            invariant
                i <= md_file_list@.len(),
                self.available() == with_files(old(self).available(), md_file_list@, i as int),
                self.current() == old(self).current(),
                self.visited() == old(self).visited(),
            decreases md_file_list.len() - i,
        {
            let resources = read_resource_file(
                md_file_list[i].0.as_str(),
                md_file_list[i].1.as_str(),
            );
            self.insert_all(resources);
            i = i + 1;
        }
    }

    /// Fills the subsystem from the files that were read, or, where they
    /// could not be read, with one page that says why; then shows the first
    /// page.
    pub fn load_resources(&mut self, md_file_list: Result<Vec<(String, String)>, String>)
        ensures
            final(self).visited() == old(self).visited(),
            match md_file_list {
                Ok(files) => final(self).available() == with_files(
                    old(self).available(),
                    files@,
                    files@.len() as int,
                ),
                Err(reason) => final(self).available() == old(self).available().insert(
                    ROOT_KEY@,
                    ResourceView::Markdown {
                        title: ROOT_KEY@,
                        text: "Error during .md file read: \n"@ + reason@,
                    },
                ),
            },
            final(self).current() == (if old(self).current() != Some(ROOT_KEY@) && final(self).available().dom().contains(ROOT_KEY@) {
                Some(ROOT_KEY@)
            } else {
                old(self).current()
            }),
    {
        match md_file_list {
            Ok(files) => {
                self.parse_into_resources(files);
            },
            Err(reason) => {
                let mut text = String::from_str("Error during .md file read: \n");
                text.append(reason.as_str());
                self.add_markdown_resource(ROOT_KEY, text.as_str());
            },
        }
        self.set_current_resource(ROOT_KEY, false);
    }
}

} // verus!
