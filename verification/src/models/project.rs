//! The project entity and its nested records.

use vstd::prelude::*;
use crate::id::ObjectId;

verus! {

/// A watermark attached to a credential; its fields are not specified yet.
pub struct Watermark {}

/// The mathematical value of a watermark.
#[verifier::ext_equal]
pub ghost struct WatermarkV {}

impl View for Watermark {
    type V = WatermarkV;

    open spec fn view(&self) -> WatermarkV {
        WatermarkV {}
    }
}

impl Clone for Watermark {
    fn clone(&self) -> (res: Watermark)
        ensures
            res@ == self@,
    {
        Watermark {}
    }
}

/// One set of Facebook API credentials.
pub struct FacebookCredential {
    pub app_id: String,
    pub app_secret: String,
    pub access_token: String,
    pub ad_account_id: String,
    pub account_suffix: String,
    pub pixel_id: Option<String>,
    pub link_url: Option<String>,
    pub page_id: Option<String>,
    pub watermark: Option<Watermark>,
}

/// The mathematical value of a credential record.
#[verifier::ext_equal]
pub ghost struct FacebookCredentialV {
    pub app_id: Seq<char>,
    pub app_secret: Seq<char>,
    pub access_token: Seq<char>,
    pub ad_account_id: Seq<char>,
    pub account_suffix: Seq<char>,
    pub pixel_id: Option<Seq<char>>,
    pub link_url: Option<Seq<char>>,
    pub page_id: Option<Seq<char>>,
    pub watermark: Option<WatermarkV>,
}

/// The view of an optional string.
pub open spec fn opt_str_view(s: Option<String>) -> Option<Seq<char>> {
    match s {
        Some(x) => Some(x@),
        None => None,
    }
}

impl View for FacebookCredential {
    type V = FacebookCredentialV;

    open spec fn view(&self) -> FacebookCredentialV {
        FacebookCredentialV {
            app_id: self.app_id@,
            app_secret: self.app_secret@,
            access_token: self.access_token@,
            ad_account_id: self.ad_account_id@,
            account_suffix: self.account_suffix@,
            pixel_id: opt_str_view(self.pixel_id),
            link_url: opt_str_view(self.link_url),
            page_id: opt_str_view(self.page_id),
            watermark: match self.watermark {
                Some(w) => Some(w@),
                None => None,
            },
        }
    }
}

/// A copy of an optional string, preserving its value.
fn clone_opt_string(s: &Option<String>) -> (r: Option<String>)
    ensures
        opt_str_view(r) == opt_str_view(*s),
{
    match s {
        Some(x) => Some(x.clone()),
        None => None,
    }
}

impl Clone for FacebookCredential {
    /// A clone carries the same value in every field.
    fn clone(&self) -> (res: FacebookCredential)
        ensures
            res@ == self@,
    {
        let res = FacebookCredential {
            app_id: self.app_id.clone(),
            app_secret: self.app_secret.clone(),
            access_token: self.access_token.clone(),
            ad_account_id: self.ad_account_id.clone(),
            account_suffix: self.account_suffix.clone(),
            pixel_id: clone_opt_string(&self.pixel_id),
            link_url: clone_opt_string(&self.link_url),
            page_id: clone_opt_string(&self.page_id),
            watermark: match &self.watermark {
                Some(w) => Some(w.clone()),
                None => None,
            },
        };
        proof {
            assert(res@ =~= self@);
        }
        res
    }
}

/// A subscription package.
pub struct Package {
    pub name: String,
    pub description: String,
}

/// The mathematical value of a package.
#[verifier::ext_equal]
pub ghost struct PackageV {
    pub name: Seq<char>,
    pub description: Seq<char>,
}

impl View for Package {
    type V = PackageV;

    open spec fn view(&self) -> PackageV {
        PackageV {
            name: self.name@,
            description: self.description@,
        }
    }
}

impl Clone for Package {
    fn clone(&self) -> (res: Package)
        ensures
            res@ == self@,
    {
        let res = Package {
            name: self.name.clone(),
            description: self.description.clone(),
        };
        proof {
            assert(res@ =~= self@);
        }
        res
    }
}

/// A project record.
///
/// `id`, `created_at` and `updated_at` behave as on accounts.
/// `facebook_credentials` maps arbitrary string keys to credential
/// records. `expires_at` is an optional timestamp in milliseconds.
pub struct Project {
    pub id: Option<ObjectId>,
    pub name: String,
    pub telegram_chat_id: Option<String>,
    pub facebook_credentials: Vec<(String, FacebookCredential)>,
    pub package: Option<Package>,
    pub expires_at: Option<i64>,
    pub is_active: bool,
    pub is_logging: bool,
    pub created_at: i64,
    pub updated_at: i64,
}

/// The mathematical value of a project.
#[verifier::ext_equal]
pub ghost struct ProjectV {
    pub id: Option<int>,
    pub name: Seq<char>,
    pub telegram_chat_id: Option<Seq<char>>,
    pub facebook_credentials: Seq<(Seq<char>, FacebookCredentialV)>,
    pub package: Option<PackageV>,
    pub expires_at: Option<int>,
    pub is_active: bool,
    pub is_logging: bool,
    pub created_at: int,
    pub updated_at: int,
}

impl View for Project {
    type V = ProjectV;

    open spec fn view(&self) -> ProjectV {
        ProjectV {
            id: match self.id {
                Some(o) => Some(o@),
                None => None,
            },
            name: self.name@,
            telegram_chat_id: opt_str_view(self.telegram_chat_id),
            facebook_credentials: self.facebook_credentials@.map_values(
                |p: (String, FacebookCredential)| (p.0@, p.1@),
            ),
            package: match self.package {
                Some(p) => Some(p@),
                None => None,
            },
            expires_at: match self.expires_at {
                Some(t) => Some(t as int),
                None => None,
            },
            is_active: self.is_active,
            is_logging: self.is_logging,
            created_at: self.created_at as int,
            updated_at: self.updated_at as int,
        }
    }
}

/// An elementwise copy of a credential mapping.
fn clone_credentials(v: &Vec<(String, FacebookCredential)>) -> (r: Vec<(String, FacebookCredential)>)
    ensures
        r@.map_values(|p: (String, FacebookCredential)| (p.0@, p.1@))
            == v@.map_values(|p: (String, FacebookCredential)| (p.0@, p.1@)),
{
    let mut r: Vec<(String, FacebookCredential)> = Vec::new();
    let mut i: usize = 0;
    while i < v.len()
        invariant
            0 <= i <= v.len(),
            r@.len() == i,
            forall|j: int| 0 <= j < i ==> (#[trigger] r@[j]).0@ == v@[j].0@ && r@[j].1@ == v@[j].1@,
        decreases v.len() - i,
    {
        let entry = &v[i];
        r.push((entry.0.clone(), entry.1.clone()));
        i += 1;
    }
    proof {
        assert(r@.map_values(|p: (String, FacebookCredential)| (p.0@, p.1@))
            =~= v@.map_values(|p: (String, FacebookCredential)| (p.0@, p.1@)));
    }
    r
}

impl Clone for Project {
    /// A clone carries the same value in every field.
    fn clone(&self) -> (res: Project)
        ensures
            res@ == self@,
    {
        let res = Project {
            id: self.id,
            name: self.name.clone(),
            telegram_chat_id: clone_opt_string(&self.telegram_chat_id),
            facebook_credentials: clone_credentials(&self.facebook_credentials),
            package: match &self.package {
                Some(p) => Some(p.clone()),
                None => None,
            },
            expires_at: self.expires_at,
            is_active: self.is_active,
            is_logging: self.is_logging,
            created_at: self.created_at,
            updated_at: self.updated_at,
        };
        proof {
            assert(res@ =~= self@);
        }
        res
    }
}

} // verus!
