//! Catalog rows, the drafts that a scan or an upload makes of them, and the
//! users that own them.

use vstd::prelude::*;
use vstd::string::*;
use crate::datetime::DateTime;
use crate::names::{ascii_lowercase, chars_eq, chars_of, extension, extension_of, lower_ascii};

verus! {

/// `folder/name`, or `name` where there is no folder: the key of a photo
/// within its owner's catalog.
pub open spec fn full_name_of(folder: Option<Seq<char>>, name: Seq<char>) -> Seq<char> {
    match folder {
        Some(f) => f + seq!['/'] + name,
        None => name,
    }
}

pub open spec fn opt_view(s: Option<String>) -> Option<Seq<char>> {
    match s {
        Some(x) => Some(x@),
        None => None,
    }
}

fn join_folder(folder: &Option<String>, name: &String) -> (r: String)
    ensures
        r@ == full_name_of(opt_view(*folder), name@),
{
    match folder {
        Some(f) => {
            let mut s = f.clone();
            proof {
                reveal_strlit("/");
            }
            s.append("/");
            s.append(name.as_str());
            s
        },
        None => name.clone(),
    }
}

pub open spec fn digit_char(d: int) -> char {
    ((d + 48) as u8) as char
}

/// The decimal digits of `n`.
pub open spec fn decimal(n: nat) -> Seq<char>
    decreases n,
{
    if n < 10 {
        seq![digit_char(n as int)]
    } else {
        decimal(n / 10).push(digit_char((n % 10) as int))
    }
}

/// `i` written in decimal, with a `-` when negative.
pub open spec fn signed_decimal(i: int) -> Seq<char> {
    if i < 0 {
        seq!['-'] + decimal((-i) as nat)
    } else {
        decimal(i as nat)
    }
}

fn digit_str(d: u64) -> (r: &'static str)
    requires
        d < 10,
    ensures
        r@ == seq![digit_char(d as int)],
{
    proof {
        reveal_strlit("0");
        reveal_strlit("1");
        reveal_strlit("2");
        reveal_strlit("3");
        reveal_strlit("4");
        reveal_strlit("5");
        reveal_strlit("6");
        reveal_strlit("7");
        reveal_strlit("8");
        reveal_strlit("9");
    }
    if d == 0 {
        "0"
    } else if d == 1 {
        "1"
    } else if d == 2 {
        "2"
    } else if d == 3 {
        "3"
    } else if d == 4 {
        "4"
    } else if d == 5 {
        "5"
    } else if d == 6 {
        "6"
    } else if d == 7 {
        "7"
    } else if d == 8 {
        "8"
    } else {
        "9"
    }
}

/// Appends the decimal digits of `n` to `s`.
fn append_decimal(s: &mut String, n: u64)
    ensures
        final(s)@ == old(s)@ + decimal(n as nat),
    decreases n,
{
    if n >= 10 {
        append_decimal(s, n / 10);
    }
    s.append(digit_str(n % 10));
    proof {
        if n >= 10 {
            assert(final(s)@ =~= old(s)@ + decimal(n as nat));
        } else {
            assert(final(s)@ =~= old(s)@ + decimal(n as nat));
        }
    }
}

/// `i` written in decimal.
pub fn signed_to_string(i: i64) -> (r: String)
    ensures
        r@ == signed_decimal(i as int),
{
    let mut s = String::new();
    if i < 0 {
        proof {
            reveal_strlit("-");
        }
        s.append("-");
        let magnitude: u64 = (0i128 - i as i128) as u64;
        append_decimal(&mut s, magnitude);
    } else {
        append_decimal(&mut s, i as u64);
    }
    s
}

/// The extension of a thumbnail: that of a HEIC/HEIF photo (in small
/// letters), else `jpg`.
pub open spec fn thumbnail_extension(ext: Option<Seq<char>>) -> Seq<char> {
    match ext {
        Some(e) => if lower_ascii(e) == seq!['h', 'e', 'i', 'c'] || lower_ascii(e) == seq![
            'h',
            'e',
            'i',
            'f',
        ] {
            lower_ascii(e)
        } else {
            seq!['j', 'p', 'g']
        },
        None => seq!['j', 'p', 'g'],
    }
}

/// A photo of the catalog.
pub struct Photo {
    pub id: i64,
    pub user_id: String,
    pub name: String,
    pub created_at: DateTime,
    pub file_size: i64,
    pub folder: Option<String>,
}

impl Photo {
    pub open spec fn full_name_spec(&self) -> Seq<char> {
        full_name_of(opt_view(self.folder), self.name@)
    }

    pub open spec fn partial_path_spec(&self) -> Seq<char> {
        self.user_id@ + seq!['/'] + self.full_name_spec()
    }

    pub fn id(&self) -> (r: i64)
        ensures
            r == self.id,
    {
        self.id
    }

    /// The photo's path inside its owner's folder.
    pub fn full_name(&self) -> (r: String)
        ensures
            r@ == self.full_name_spec(),
    {
        join_folder(&self.folder, &self.name)
    }

    /// The preview's path inside the preview folder: `<id>.jpg`.
    pub fn partial_preview_path(&self) -> (r: String)
        ensures
            r@ == signed_decimal(self.id as int) + ".jpg"@,
    {
        let mut s = signed_to_string(self.id);
        s.append(".jpg");
        s
    }

    /// The thumbnail's path inside the preview folder: `<id>.heic` or
    /// `<id>.heif` for a HEIC/HEIF photo, whose external thumbnailer writes
    /// that format, else `<id>.jpg`.
    pub fn partial_thumbnail_path(&self) -> (r: String)
        ensures
            r@ == signed_decimal(self.id as int) + seq!['.'] + thumbnail_extension(
                extension_of(self.name@),
            ),
    {
        let mut s = signed_to_string(self.id);
        proof {
            reveal_strlit(".");
            reveal_strlit("heic");
            reveal_strlit("heif");
            reveal_strlit("jpg");
        }
        s.append(".");
        let ext = match extension(self.name.as_str()) {
            Some(e) => ascii_lowercase(&chars_of(e.as_str())),
            None => Vec::new(),
        };
        let heic: [char; 4] = ['h', 'e', 'i', 'c'];
        let heif: [char; 4] = ['h', 'e', 'i', 'f'];
        assert(heic@ =~= seq!['h', 'e', 'i', 'c']);
        assert(heif@ =~= seq!['h', 'e', 'i', 'f']);
        if chars_eq(&ext, heic.as_slice()) {
            s.append("heic");
        } else if chars_eq(&ext, heif.as_slice()) {
            s.append("heif");
        } else {
            s.append("jpg");
        }
        s
    }

    /// The photo's path inside the storage folder.
    pub fn partial_path(&self) -> (r: String)
        ensures
            r@ == self.partial_path_spec(),
    {
        let mut s = self.user_id.clone();
        proof {
            reveal_strlit("/");
        }
        s.append("/");
        let f = self.full_name();
        s.append(f.as_str());
        s
    }
}

/// A photo found on disk or uploaded, not yet in the catalog.
pub struct PhotoBody {
    pub user_name: String,
    pub name: String,
    pub created_at: DateTime,
    pub file_size: i64,
    pub folder: Option<String>,
}

/// A draft's fields as values.
pub struct PhotoBodyView {
    pub user_name: Seq<char>,
    pub name: Seq<char>,
    pub created_at: DateTime,
    pub file_size: i64,
    pub folder: Option<Seq<char>>,
}

impl View for PhotoBody {
    type V = PhotoBodyView;

    open spec fn view(&self) -> PhotoBodyView {
        PhotoBodyView {
            user_name: self.user_name@,
            name: self.name@,
            created_at: self.created_at,
            file_size: self.file_size,
            folder: opt_view(self.folder),
        }
    }
}

pub open spec fn drafts_view(v: Seq<PhotoBody>) -> Seq<PhotoBodyView> {
    v.map_values(|p: PhotoBody| p@)
}

impl PhotoBody {
    pub open spec fn full_name_spec(&self) -> Seq<char> {
        full_name_of(opt_view(self.folder), self.name@)
    }

    pub fn new(
        user_name: String,
        name: String,
        created_at: DateTime,
        file_size: i64,
        folder: Option<String>,
    ) -> (r: PhotoBody)
        ensures
            r == (PhotoBody { user_name, name, created_at, file_size, folder }),
    {
        PhotoBody { user_name, name, created_at, file_size, folder }
    }

    pub fn user_id(&self) -> (r: &String)
        ensures
            r == &self.user_name,
    {
        &self.user_name
    }

    pub fn name(&self) -> (r: &String)
        ensures
            r == &self.name,
    {
        &self.name
    }

    pub fn created_at(&self) -> (r: DateTime)
        ensures
            r == self.created_at,
    {
        self.created_at
    }

    pub fn file_size(&self) -> (r: i64)
        ensures
            r == self.file_size,
    {
        self.file_size
    }

    pub fn folder_name(&self) -> (r: Option<&String>)
        ensures
            r == match &self.folder {
                Some(f) => Some(f),
                None => None::<&String>,
            },
    {
        match &self.folder {
            Some(f) => Some(f),
            None => None,
        }
    }

    pub fn set_file_size(&mut self, value: i64)
        ensures
            *final(self) == (PhotoBody { file_size: value, ..*old(self) }),
    {
        self.file_size = value;
    }

    /// The photo's path inside its owner's folder.
    pub fn full_name(&self) -> (r: String)
        ensures
            r@ == self.full_name_spec(),
    {
        join_folder(&self.folder, &self.name)
    }

    /// A copy with equal fields.
    pub fn duplicate(&self) -> (r: PhotoBody)
        ensures
            r == *self,
    {
        PhotoBody {
            user_name: self.user_name.clone(),
            name: self.name.clone(),
            created_at: self.created_at,
            file_size: self.file_size,
            folder: match &self.folder {
                Some(f) => Some(f.clone()),
                None => None,
            },
        }
    }
}

/// A user, as stored.
pub struct User {
    pub id: String,
    pub name: String,
    pub password_hash: String,
}

/// What a listing shows of a user.
pub struct SimpleUser {
    pub user_id: String,
    pub display_name: String,
}

/// What a login form sends.
pub struct UserCredentials {
    pub user_id: String,
    pub password: String,
}

impl From<User> for SimpleUser {
    fn from(value: User) -> (r: SimpleUser) {
        SimpleUser { user_id: value.id, display_name: value.name }
    }
}

impl vstd::std_specs::convert::FromSpecImpl<User> for SimpleUser {
    open spec fn obeys_from_spec() -> bool {
        true
    }

    open spec fn from_spec(v: User) -> SimpleUser {
        SimpleUser { user_id: v.id, display_name: v.name }
    }
}

impl User {
    pub fn id(&self) -> (r: String)
        ensures
            r == self.id,
    {
        self.id.clone()
    }
}

} // verus!
