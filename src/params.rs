use vstd::prelude::*;

verus! {

/// What `str::trim` leaves of a character sequence.
pub uninterp spec fn trim_of(s: Seq<char>) -> Seq<char>;

/// What `str::to_lowercase` makes of a character sequence.
pub uninterp spec fn lower_of(s: Seq<char>) -> Seq<char>;

/// Relies on `str::trim`: strips leading and trailing whitespace; the result
/// depends on the characters alone.
#[verifier::external_body]
fn trimmed(s: &str) -> (r: String)
    ensures
        r@ == trim_of(s@),
{
    s.trim().to_string()
}

/// Relies on `str::to_lowercase`: the result depends on the characters alone.
#[verifier::external_body]
fn lowercased(s: &str) -> (r: String)
    ensures
        r@ == lower_of(s@),
{
    s.to_lowercase()
}

/// The normal form of a repository URL: trimmed, then lowercased.
pub open spec fn normal_url(s: Seq<char>) -> Seq<char> {
    lower_of(trim_of(s))
}

pub open spec fn opt_str_view(o: Option<String>) -> Option<Seq<char>> {
    match o {
        Some(s) => Some(s@),
        None => None,
    }
}

pub open spec fn args_view(v: Vec<String>) -> Seq<Seq<char>> {
    v@.map_values(|s: String| s@)
}

pub open spec fn opt_args_view(o: Option<Vec<String>>) -> Option<Seq<Seq<char>>> {
    match o {
        Some(v) => Some(args_view(v)),
        None => None,
    }
}

/// The parameters of one verification request, as a client sends them.
pub struct JobParams {
    pub repository: String,
    pub commit_hash: Option<String>,
    pub program_id: String,
    pub lib_name: Option<String>,
    pub bpf_flag: Option<bool>,
    pub base_image: Option<String>,
    pub mount_path: Option<String>,
    pub cargo_args: Option<Vec<String>>,
}

/// The normalized identity of a request, used to find duplicates.
pub struct Fingerprint {
    pub repository: String,
    pub commit_hash: Option<String>,
    pub program_id: String,
    pub lib_name: Option<String>,
    pub bpf_flag: bool,
    pub base_image: Option<String>,
    pub mount_path: Option<String>,
    pub cargo_args: Option<Vec<String>>,
}

pub ghost struct FingerprintView {
    pub repository: Seq<char>,
    pub commit_hash: Option<Seq<char>>,
    pub program_id: Seq<char>,
    pub lib_name: Option<Seq<char>>,
    pub bpf_flag: bool,
    pub base_image: Option<Seq<char>>,
    pub mount_path: Option<Seq<char>>,
    pub cargo_args: Option<Seq<Seq<char>>>,
}

impl View for Fingerprint {
    type V = FingerprintView;

    open spec fn view(&self) -> FingerprintView {
        FingerprintView {
            repository: self.repository@,
            commit_hash: opt_str_view(self.commit_hash),
            program_id: self.program_id@,
            lib_name: opt_str_view(self.lib_name),
            bpf_flag: self.bpf_flag,
            base_image: opt_str_view(self.base_image),
            mount_path: opt_str_view(self.mount_path),
            cargo_args: opt_args_view(self.cargo_args),
        }
    }
}

/// The fingerprint of a request: the URL in normal form, an absent build flag
/// read as `false`, every other field as given. An absent optional field stays
/// absent, so it never equals an explicitly empty one.
pub open spec fn fingerprint_spec(p: JobParams) -> FingerprintView {
    FingerprintView {
        repository: normal_url(p.repository@),
        commit_hash: opt_str_view(p.commit_hash),
        program_id: p.program_id@,
        lib_name: opt_str_view(p.lib_name),
        bpf_flag: match p.bpf_flag {
            Some(b) => b,
            None => false,
        },
        base_image: opt_str_view(p.base_image),
        mount_path: opt_str_view(p.mount_path),
        cargo_args: opt_args_view(p.cargo_args),
    }
}

pub fn clone_opt_str(o: &Option<String>) -> (r: Option<String>)
    ensures
        opt_str_view(r) == opt_str_view(*o),
{
    match o {
        Some(s) => Some(s.clone()),
        None => None,
    }
}

pub fn clone_args(v: &Vec<String>) -> (r: Vec<String>)
    ensures
        args_view(r) == args_view(*v),
{
    let mut r: Vec<String> = Vec::new();
    let mut i: usize = 0;
    while i < v.len()
        invariant
            i <= v.len(),
            r@.len() == i,
            forall|j: int| 0 <= j < i ==> r@[j]@ == v@[j]@,
        decreases v.len() - i,
    {
        r.push(v[i].clone());
        i = i + 1;
    }
    assert(args_view(r) =~= args_view(*v));
    r
}

pub fn clone_opt_args(o: &Option<Vec<String>>) -> (r: Option<Vec<String>>)
    ensures
        opt_args_view(r) == opt_args_view(*o),
{
    match o {
        Some(v) => Some(clone_args(v)),
        None => None,
    }
}

pub fn eq_opt_str(a: &Option<String>, b: &Option<String>) -> (r: bool)
    ensures
        r == (opt_str_view(*a) == opt_str_view(*b)),
{
    match (a, b) {
        (Some(x), Some(y)) => *x == *y,
        (None, None) => true,
        _ => false,
    }
}

pub fn eq_args(a: &Vec<String>, b: &Vec<String>) -> (r: bool)
    ensures
        r == (args_view(*a) == args_view(*b)),
{
    if a.len() != b.len() {
        assert(args_view(*a).len() != args_view(*b).len());
        return false;
    }
    let mut i: usize = 0;
    while i < a.len()
        invariant
            i <= a.len(),
            a.len() == b.len(),
            forall|j: int| 0 <= j < i ==> a@[j]@ == b@[j]@,
        decreases a.len() - i,
    {
        if a[i] != b[i] {
            assert(args_view(*a)[i as int] != args_view(*b)[i as int]);
            return false;
        }
        i = i + 1;
    }
    assert(args_view(*a) =~= args_view(*b));
    true
}

pub fn eq_opt_args(a: &Option<Vec<String>>, b: &Option<Vec<String>>) -> (r: bool)
    ensures
        r == (opt_args_view(*a) == opt_args_view(*b)),
{
    match (a, b) {
        (Some(x), Some(y)) => eq_args(x, y),
        (None, None) => true,
        _ => false,
    }
}

impl Fingerprint {
    /// Computes the fingerprint of a request; pure and deterministic.
    pub fn of(p: &JobParams) -> (r: Fingerprint)
        ensures
            r@ == fingerprint_spec(*p),
    {
        let t = trimmed(p.repository.as_str());
        let repository = lowercased(t.as_str());
        let bpf_flag = match p.bpf_flag {
            Some(b) => b,
            None => false,
        };
        Fingerprint {
            repository,
            commit_hash: clone_opt_str(&p.commit_hash),
            program_id: p.program_id.clone(),
            lib_name: clone_opt_str(&p.lib_name),
            bpf_flag,
            base_image: clone_opt_str(&p.base_image),
            mount_path: clone_opt_str(&p.mount_path),
            cargo_args: clone_opt_args(&p.cargo_args),
        }
    }

    pub fn clone_fp(&self) -> (r: Fingerprint)
        ensures
            r@ == self@,
    {
        Fingerprint {
            repository: self.repository.clone(),
            commit_hash: clone_opt_str(&self.commit_hash),
            program_id: self.program_id.clone(),
            lib_name: clone_opt_str(&self.lib_name),
            bpf_flag: self.bpf_flag,
            base_image: clone_opt_str(&self.base_image),
            mount_path: clone_opt_str(&self.mount_path),
            cargo_args: clone_opt_args(&self.cargo_args),
        }
    }

    /// Whether two fingerprints name the same job.
    pub fn same(&self, other: &Fingerprint) -> (r: bool)
        ensures
            r == (self@ == other@),
    {
        self.repository == other.repository
            && eq_opt_str(&self.commit_hash, &other.commit_hash)
            && self.program_id == other.program_id
            && eq_opt_str(&self.lib_name, &other.lib_name)
            && self.bpf_flag == other.bpf_flag
            && eq_opt_str(&self.base_image, &other.base_image)
            && eq_opt_str(&self.mount_path, &other.mount_path)
            && eq_opt_args(&self.cargo_args, &other.cargo_args)
    }
}

} // verus!
