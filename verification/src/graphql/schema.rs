//! The entity model, the per-request context and the root types with
//! what they declare.

use vstd::prelude::*;
use vstd::string::StringExecFns;

verus! {

/// A photo as the data source holds it. The URL is not stored: it is
/// computed from the identifier on every read.
#[derive(Debug)]
pub struct Photo {
    pub id: String,
    pub name: String,
    pub description: String,
}

/// The mathematical value of a [`Photo`].
pub ghost struct PhotoView {
    pub id: Seq<char>,
    pub name: Seq<char>,
    pub description: Seq<char>,
}

/// The address under which every photo URL lives.
pub open spec fn url_base() -> Seq<char> {
    "http://hogehoge"@
}

/// The URL of the photo with identifier `id`: the base, a slash, the identifier.
pub open spec fn url_of(id: Seq<char>) -> Seq<char> {
    url_base() + "/"@ + id
}

impl View for Photo {
    type V = PhotoView;

    open spec fn view(&self) -> PhotoView {
        PhotoView { id: self.id@, name: self.name@, description: self.description@ }
    }
}

impl Clone for Photo {
    fn clone(&self) -> (copy: Photo)
        ensures
            copy@ == self@,
    {
        Photo {
            id: self.id.clone(),
            name: self.name.clone(),
            description: self.description.clone(),
        }
    }
}

impl Photo {
    /// Builds a photo from its stored fields. Nothing is validated: empty
    /// strings are accepted.
    pub fn new(id: String, name: String, description: String) -> (photo: Photo)
        ensures
            photo.id == id,
            photo.name == name,
            photo.description == description,
    {
        Photo { id, name, description }
    }

    pub fn id(&self) -> (id: String)
        ensures
            id@ == self@.id,
    {
        self.id.clone()
    }

    pub fn name(&self) -> (name: String)
        ensures
            name@ == self@.name,
    {
        self.name.clone()
    }

    pub fn description(&self) -> (description: String)
        ensures
            description@ == self@.description,
    {
        self.description.clone()
    }

    /// The derived field: a pure function of the identifier.
    pub fn url(&self) -> (url: String)
        ensures
            url@ == url_of(self@.id),
    {
        let base = String::from_str("http://hogehoge");
        let with_slash = base.concat("/");
        with_slash.concat(self.id.as_str())
    }

    /// The field that the schema declares under `name`, read from this
    /// photo; `None` where it declares none.
    pub fn field(&self, name: &str) -> (value: Option<String>)
        ensures
            option_text(value) == photo_field(self@, name@),
    {
        if text_eq(name, "id") {
            Some(self.id())
        } else if text_eq(name, "name") {
            Some(self.name())
        } else if text_eq(name, "description") {
            Some(self.description())
        } else if text_eq(name, "url") {
            Some(self.url())
        } else {
            None
        }
    }

    /// The names of the fields that the schema declares on a photo.
    pub fn field_names() -> (names: Vec<String>)
        ensures
            names_view(names@) == photo_field_names(),
    {
        let mut names: Vec<String> = Vec::new();
        names.push(String::from_str("id"));
        names.push(String::from_str("name"));
        names.push(String::from_str("description"));
        names.push(String::from_str("url"));
        assert(names_view(names@) =~= photo_field_names());
        names
    }
}

/// Whether two strings hold the same characters.
pub fn text_eq(a: &str, b: &str) -> (same: bool)
    ensures
        same == (a@ == b@),
{
    let left = String::from_str(a);
    let right = String::from_str(b);
    left == right
}

/// The characters of an optional string.
pub open spec fn option_text(text: Option<String>) -> Option<Seq<char>> {
    match text {
        Some(text) => Some(text@),
        None => None,
    }
}

/// What the field `name` of a photo yields. The schema declares four
/// fields on a photo, each a string: the three stored ones and the URL.
pub open spec fn photo_field(photo: PhotoView, name: Seq<char>) -> Option<Seq<char>> {
    if name == "id"@ {
        Some(photo.id)
    } else if name == "name"@ {
        Some(photo.name)
    } else if name == "description"@ {
        Some(photo.description)
    } else if name == "url"@ {
        Some(url_of(photo.id))
    } else {
        None
    }
}

/// Whether the schema declares a field `name` on a photo.
pub open spec fn photo_declares(name: Seq<char>) -> bool {
    name == "id"@ || name == "name"@ || name == "description"@ || name == "url"@
}

/// Whether the query root declares an operation `name`. There is one:
/// the listing of all entities.
pub open spec fn query_declares(name: Seq<char>) -> bool {
    name == "allEntities"@
}

/// The names of the fields that the schema declares on a photo, in the
/// order of the schema.
pub open spec fn photo_field_names() -> Seq<Seq<char>> {
    seq!["id"@, "name"@, "description"@, "url"@]
}

/// The names of the operations that the query root declares.
pub open spec fn query_operation_names() -> Seq<Seq<char>> {
    seq!["allEntities"@]
}

/// The names of the operations that the mutation root declares: none.
pub open spec fn mutation_operation_names() -> Seq<Seq<char>> {
    Seq::empty()
}

/// The characters of a sequence of strings, one for one.
pub open spec fn names_view(names: Seq<String>) -> Seq<Seq<char>> {
    Seq::new(names.len(), |i: int| names[i]@)
}

/// Whether the mutation root declares an operation `name`. It declares none.
pub open spec fn mutation_declares(name: Seq<char>) -> bool {
    false
}

/// The values of a sequence of photos, one for one.
pub open spec fn photos_view(photos: Seq<Photo>) -> Seq<PhotoView> {
    Seq::new(photos.len(), |i: int| photos[i]@)
}

/// Why a resolver could not yield its field.
#[derive(Debug)]
pub struct FieldError {
    pub message: String,
}

/// What a resolver hands back.
pub type FieldResult<T> = Result<T, FieldError>;

/// The data that every resolver is handed: the photos that can be
/// queried, in the order in which they are listed.
#[derive(Debug)]
pub struct Context {
    pub photos: Vec<Photo>,
}

impl View for Context {
    type V = Seq<PhotoView>;

    open spec fn view(&self) -> Seq<PhotoView> {
        photos_view(self.photos@)
    }
}

/// Copies a list of photos, keeping their order.
pub fn copy_photos(photos: &Vec<Photo>) -> (copy: Vec<Photo>)
    ensures
        photos_view(copy@) == photos_view(photos@),
{
    let mut copy: Vec<Photo> = Vec::new();
    let mut i: usize = 0;
    while i < photos.len()
        invariant
            i <= photos.len(),
            copy@.len() == i,
            forall|j: int| 0 <= j < i ==> copy@[j]@ == photos@[j]@,
        decreases photos.len() - i,
    {
        copy.push(photos[i].clone());
        i += 1;
    }
    assert(photos_view(copy@) =~= photos_view(photos@));
    copy
}

impl Clone for Context {
    fn clone(&self) -> (copy: Context)
        ensures
            copy@ == self@,
    {
        Context { photos: copy_photos(&self.photos) }
    }
}

impl Context {
    pub fn new(photos: Vec<Photo>) -> (context: Context)
        ensures
            context.photos == photos,
    {
        Context { photos }
    }

    /// Every photo of the context, in its order: nothing is filtered.
    pub fn photos(&self) -> (photos: Vec<Photo>)
        ensures
            photos_view(photos@) == self@,
    {
        copy_photos(&self.photos)
    }
}

/// The photos that the service starts with.
pub open spec fn seed_photos() -> Seq<PhotoView> {
    seq![
        PhotoView { id: "1"@, name: "test1"@, description: "test1 photo"@ },
        PhotoView { id: "2"@, name: "test2"@, description: "test2 photo"@ },
        PhotoView { id: "3"@, name: "test3"@, description: "test3 photo"@ },
        PhotoView { id: "4"@, name: "test4"@, description: "test4 photo"@ },
        PhotoView { id: "5"@, name: "test5"@, description: "test5 photo"@ },
    ]
}

/// The context that every request is answered from: five photos,
/// numbered from one to five.
pub fn seed_context() -> (context: Context)
    ensures
        context@ == seed_photos(),
{
    let mut photos: Vec<Photo> = Vec::new();
    photos.push(
        Photo::new(
            String::from_str("1"),
            String::from_str("test1"),
            String::from_str("test1 photo"),
        ),
    );
    photos.push(
        Photo::new(
            String::from_str("2"),
            String::from_str("test2"),
            String::from_str("test2 photo"),
        ),
    );
    photos.push(
        Photo::new(
            String::from_str("3"),
            String::from_str("test3"),
            String::from_str("test3 photo"),
        ),
    );
    photos.push(
        Photo::new(
            String::from_str("4"),
            String::from_str("test4"),
            String::from_str("test4 photo"),
        ),
    );
    photos.push(
        Photo::new(
            String::from_str("5"),
            String::from_str("test5"),
            String::from_str("test5 photo"),
        ),
    );
    let context = Context::new(photos);
    assert(context@ =~= seed_photos());
    context
}

/// The root of all reading operations.
#[derive(Clone, Copy, Debug)]
pub struct Query;

/// The root of all changing operations. It has none.
#[derive(Clone, Copy, Debug)]
pub struct Mutation;

impl Query {
    /// Lists every photo of the context, in the context's order. It never fails.
    pub fn all_photos(&self, context: &Context) -> (photos: FieldResult<Vec<Photo>>)
        ensures
            photos is Ok,
            photos_view(photos->Ok_0@) == context@,
    {
        Ok(context.photos())
    }

    /// Whether this root declares an operation `name`.
    pub open spec fn declared(&self, name: Seq<char>) -> bool {
        query_declares(name)
    }

    /// Whether this root declares an operation `name`.
    pub fn declares(&self, name: &str) -> (declared: bool)
        ensures
            declared == self.declared(name@),
    {
        text_eq(name, "allEntities")
    }

    /// Resolves the operation `name` against a context: the listing of
    /// all photos under the one name that this root declares, and
    /// nothing under any other name.
    pub fn resolve(&self, context: &Context, name: &str) -> (resolved: Option<
        FieldResult<Vec<Photo>>,
    >)
        ensures
            resolved is Some <==> self.declared(name@),
            resolved is Some ==> resolved->Some_0 is Ok && photos_view(resolved->Some_0->Ok_0@)
                == context@,
    {
        if self.declares(name) {
            Some(self.all_photos(context))
        } else {
            None
        }
    }

    /// The names of the operations that this root declares: the listing.
    pub fn operations(&self) -> (names: Vec<String>)
        ensures
            names_view(names@) == query_operation_names(),
    {
        let mut names: Vec<String> = Vec::new();
        names.push(String::from_str("allEntities"));
        assert(names_view(names@) =~= query_operation_names());
        names
    }
}

impl Mutation {
    /// Whether this root declares an operation `name`: it never does.
    pub open spec fn declared(&self, name: Seq<char>) -> bool {
        mutation_declares(name)
    }

    /// Whether this root declares an operation `name`: it never does.
    pub fn declares(&self, name: &str) -> (declared: bool)
        ensures
            declared == self.declared(name@),
    {
        false
    }

    /// The names of the operations that this root declares: none.
    pub fn operations(&self) -> (names: Vec<String>)
        ensures
            names_view(names@) == mutation_operation_names(),
    {
        let names: Vec<String> = Vec::new();
        assert(names_view(names@) =~= mutation_operation_names());
        names
    }
}

/// The type graph: both roots. It is built once and only read after that.
#[derive(Clone, Copy, Debug)]
pub struct Schema {
    pub query: Query,
    pub mutation: Mutation,
}

/// Builds the type graph: a query root that declares the listing of all
/// entities and nothing else, and a mutation root that declares nothing.
pub fn create_schema() -> (schema: Schema)
    ensures
        schema == (Schema { query: Query, mutation: Mutation }),
        forall|name: Seq<char>| schema.query.declared(name) <==> name == "allEntities"@,
        forall|name: Seq<char>| !schema.mutation.declared(name),
{
    Schema { query: Query {  }, mutation: Mutation {  } }
}

/// A name is declared on a root exactly if it is among the names of the
/// root's operations, and on a photo exactly if it is among the names of
/// a photo's fields: those are the names under which a photo yields a
/// value.
pub proof fn theorem_declared_names(photo: PhotoView, name: Seq<char>)
    ensures
        query_declares(name) <==> query_operation_names().contains(name),
        mutation_declares(name) <==> mutation_operation_names().contains(name),
        photo_declares(name) <==> photo_field_names().contains(name),
        photo_declares(name) <==> photo_field(photo, name) is Some,
{
    let fields = photo_field_names();
    let operations = query_operation_names();
    assert(operations[0] == "allEntities"@);
    assert(fields[0] == "id"@ && fields[1] == "name"@ && fields[2] == "description"@ && fields[3]
        == "url"@);
}

/// The URL of a photo depends on its identifier alone: two photos with
/// one identifier have one URL, whatever else they hold, and reading the
/// URL twice yields it twice.
pub proof fn theorem_url_follows_identifier(first: PhotoView, second: PhotoView)
    requires
        first.id == second.id,
    ensures
        photo_field(first, "url"@) == photo_field(second, "url"@),
        photo_field(first, "url"@) == Some(url_of(first.id)),
{
    reveal_strlit("url");
    reveal_strlit("id");
    reveal_strlit("name");
    reveal_strlit("description");
    assert("url"@ != "id"@) by {
        assert("url"@.len() == 3);
        assert("id"@.len() == 2);
    }
    assert("url"@ != "name"@) by {
        assert("url"@.len() == 3);
        assert("name"@.len() == 4);
    }
    assert("url"@ != "description"@) by {
        assert("url"@.len() == 3);
        assert("description"@.len() == 11);
    }
}

} // verus!
