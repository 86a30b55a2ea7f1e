//! Report templates: Markdown with `{{key}}` placeholders, and a repository
//! that holds the built-in templates and any registered ones.
use vstd::prelude::*;
use crate::store::{Keyed, KeyedStore};
use crate::text::matches_at;

verus! {

/// A report template.
#[derive(Debug, Clone)]
pub struct ReportTemplate {
    /// The template's name.
    pub name: String,
    /// Markdown with `{{key}}` placeholders.
    pub content: String,
}

/// Every occurrence of `pat` in `s`, left to right and without overlap,
/// replaced by `rep` (what `str::replace` does for a non-empty pattern).
pub open spec fn replace_all(s: Seq<char>, pat: Seq<char>, rep: Seq<char>) -> Seq<char>
    decreases s.len(),
{
    if s.len() == 0 {
        s
    } else if pat.len() > 0 && pat.len() <= s.len() && s.subrange(0, pat.len() as int) == pat {
        rep + replace_all(s.subrange(pat.len() as int, s.len() as int), pat, rep)
    } else {
        seq![s[0]] + replace_all(s.drop_first(), pat, rep)
    }
}

/// The placeholder for `key`: `{{key}}`.
pub open spec fn placeholder(key: Seq<char>) -> Seq<char> {
    "{{"@ + key + "}}"@
}

/// `content` with the placeholders of `context` replaced by their values,
/// one entry after another in the order given.
pub open spec fn rendered(content: Seq<char>, context: Seq<(Seq<char>, Seq<char>)>) -> Seq<char>
    decreases context.len(),
{
    if context.len() == 0 {
        content
    } else {
        let (k, v) = context.last();
        replace_all(rendered(content, context.drop_last()), placeholder(k), v)
    }
}

/// The views of a context of string pairs.
pub open spec fn context_view(c: Seq<(&str, &str)>) -> Seq<(Seq<char>, Seq<char>)> {
    c.map_values(|p: (&str, &str)| (p.0@, p.1@))
}

/// `s` with each occurrence of `pat` replaced by `rep`.
fn replace_str(s: &str, pat: &str, rep: &str) -> (r: String)
    requires
        pat@.len() > 0,
    ensures
        r@ == replace_all(s@, pat@, rep@),
{
    let v = crate::text::chars_of(s);
    let p = crate::text::chars_of(pat);
    let n = v.len();
    let m = p.len();
    let mut out = String::new();
    let mut i: usize = 0;
    assert(v@.subrange(0, n as int) =~= v@);
    while i < n
        invariant
            n == v@.len(),
            m == p@.len(),
            m > 0,
            p@ == pat@,
            i <= n,
            replace_all(s@, pat@, rep@) == out@ + replace_all(v@.subrange(i as int, n as int), pat@, rep@),
        decreases n - i,
    {
        let ghost tail = v@.subrange(i as int, n as int);
        if matches_at(v.as_slice(), p.as_slice(), i) {
            assert(tail.subrange(0, m as int) =~= v@.subrange(i as int, i + m));
            assert(tail.subrange(m as int, tail.len() as int) =~= v@.subrange(i + m, n as int));
            crate::text::append_str(&mut out, rep);
            i = i + m;
        } else {
            assert(!(m <= tail.len() && tail.subrange(0, m as int) == pat@)) by {
                if m <= tail.len() && tail.subrange(0, m as int) == pat@ {
                    assert(v@.subrange(i as int, i + m) =~= tail.subrange(0, m as int));
                }
            }
            assert(tail.drop_first() =~= v@.subrange(i + 1, n as int));
            assert(tail[0] == v@[i as int]);
            crate::text::push_char(&mut out, v[i]);
            i = i + 1;
        }
        assert(out@ + replace_all(v@.subrange(i as int, n as int), pat@, rep@) == replace_all(s@, pat@, rep@));
    }
    assert(v@.subrange(n as int, n as int) =~= Seq::<char>::empty());
    assert(out@ + Seq::<char>::empty() =~= out@);
    out
}

impl ReportTemplate {
    pub fn new(name: &str, content: &str) -> (r: Self)
        ensures
            r.name@ == name@,
            r.content@ == content@,
    {
        ReportTemplate { name: String::from_str(name), content: String::from_str(content) }
    }

    /// The content with each `{{key}}` of `context` replaced by its value,
    /// entry by entry in the order given; unknown placeholders stay.
    pub fn render(&self, context: &[(&str, &str)]) -> (r: String)
        ensures
            r@ == rendered(self.content@, context_view(context@)),
    {
        let mut result = self.content.clone();
        let mut i: usize = 0;
        assert(context_view(context@).subrange(0, 0) =~= Seq::<(Seq<char>, Seq<char>)>::empty());
        while i < context.len()
            invariant
                i <= context@.len(),
                result@ == rendered(self.content@, context_view(context@).subrange(0, i as int)),
            decreases context.len() - i,
        {
            let (key, value) = context[i];
            let mut ph = String::from_str("{{");
            crate::text::append_str(&mut ph, key);
            crate::text::append_str(&mut ph, "}}");
            proof { reveal_strlit("{{"); }
            assert(ph@ == placeholder(key@));
            let next = replace_str(result.as_str(), ph.as_str(), value);
            proof {
                let cv = context_view(context@);
                assert(cv.subrange(0, i + 1).drop_last() =~= cv.subrange(0, i as int));
                assert(cv.subrange(0, i + 1).last() == (key@, value@));
            }
            result = next;
            i = i + 1;
        }
        assert(context_view(context@).subrange(0, context@.len() as int) =~= context_view(context@));
        result
    }
}

impl Keyed for ReportTemplate {
    open spec fn key(&self) -> Seq<char> {
        self.name@
    }

    fn key_str(&self) -> (r: &str) {
        self.name.as_str()
    }
}

/// The built-in daily report template.
pub const DAILY_TEMPLATE: &'static str = "# 日报：{{date}}\n\n## 完成事项\n\n{{completed}}\n\n## 进行中\n\n{{in_progress}}\n\n## 明日计划\n\n{{planned}}\n\n## 阻塞项\n\n{{blockers}}\n";

/// The built-in weekly report template.
pub const WEEKLY_TEMPLATE: &'static str = "# 周报：{{week_range}}\n\n## 本周进度\n\n{{progress}}\n\n## 关键成果\n\n{{achievements}}\n\n## 下周计划\n\n{{next_week_plan}}\n\n## 风险与阻塞\n\n{{risks}}\n";

/// The built-in monthly report template.
pub const MONTHLY_TEMPLATE: &'static str = "# 月报：{{year}}年{{month}}月\n\n## 目标进度\n\n{{goals_progress}}\n\n## 时间分配\n\n{{time_distribution}}\n\n## 效率趋势\n\n{{efficiency_trend}}\n\n## 总结\n\n{{summary}}\n";

/// Templates by name: the built-in `daily`, `weekly` and `monthly`, and any
/// registered since.
pub struct TemplateRepository {
    templates: KeyedStore<ReportTemplate>,
}

impl TemplateRepository {
    /// The templates held, by name.
    pub closed spec fn view(self) -> Map<Seq<char>, ReportTemplate> {
        self.templates.view()
    }

    /// A repository holding the three built-in templates.
    pub fn new() -> (r: Self)
        ensures
            r@.dom() == set!["daily"@, "weekly"@, "monthly"@],
            r@["daily"@].content@ == DAILY_TEMPLATE@,
            r@["weekly"@].content@ == WEEKLY_TEMPLATE@,
            r@["monthly"@].content@ == MONTHLY_TEMPLATE@,
            forall|k: Seq<char>| #[trigger] r@.contains_key(k) ==> r@[k].name@ == k,
    {
        proof {
            reveal_strlit("daily");
            reveal_strlit("weekly");
            reveal_strlit("monthly");
            assert("daily"@.len() == 5 && "weekly"@.len() == 6 && "monthly"@.len() == 7);
        }
        let mut r = TemplateRepository { templates: KeyedStore::new() };
        r.register_defaults();
        assert(r@.dom() =~= set!["daily"@, "weekly"@, "monthly"@]);
        r
    }

    /// Registers the three built-in templates.
    fn register_defaults(&mut self)
        ensures
            final(self)@.dom() == old(self)@.dom().insert("daily"@).insert("weekly"@).insert("monthly"@),
            final(self)@["daily"@].name@ == "daily"@ && final(self)@["daily"@].content@ == DAILY_TEMPLATE@,
            final(self)@["weekly"@].name@ == "weekly"@ && final(self)@["weekly"@].content@ == WEEKLY_TEMPLATE@,
            final(self)@["monthly"@].name@ == "monthly"@ && final(self)@["monthly"@].content@ == MONTHLY_TEMPLATE@,
            forall|k: Seq<char>|
                #![trigger final(self)@[k]]
                old(self)@.contains_key(k) && k != "daily"@ && k != "weekly"@ && k != "monthly"@ ==> final(self)@[k]
                    == old(self)@[k],
    {
        proof {
            reveal_strlit("daily");
            reveal_strlit("weekly");
            reveal_strlit("monthly");
            assert("daily"@.len() == 5 && "weekly"@.len() == 6 && "monthly"@.len() == 7);
        }
        self.register(ReportTemplate::new("daily", DAILY_TEMPLATE));
        self.register(ReportTemplate::new("weekly", WEEKLY_TEMPLATE));
        self.register(ReportTemplate::new("monthly", MONTHLY_TEMPLATE));
    }

    /// Registers `template` under its name, replacing any template of that
    /// name.
    pub fn register(&mut self, template: ReportTemplate)
        ensures
            final(self)@ == old(self)@.insert(template.name@, template),
    {
        self.templates.insert(template);
    }

    /// The template named `name`.
    pub fn get(&self, name: &str) -> (r: Option<&ReportTemplate>)
        ensures
            r is Some == self@.contains_key(name@),
            r matches Some(t) ==> *t == self@[name@],
    {
        self.templates.get(name)
    }

    /// The names of the templates held, each once.
    pub fn names(&self) -> (r: Vec<&str>)
        ensures
            r@.len() == self@.dom().len(),
            forall|i: int| 0 <= i < r@.len() ==> self@.contains_key(#[trigger] r@[i]@),
            forall|k: Seq<char>| #[trigger] self@.contains_key(k) ==> exists|i: int| 0 <= i < r@.len() && r@[i]@ == k,
    {
        let all = self.templates.values();
        let mut names: Vec<&str> = Vec::new();
        let mut i: usize = 0;
        while i < all.len()
            invariant
                i <= all@.len(),
                names@.len() == i,
                forall|j: int| 0 <= j < i ==> #[trigger] names@[j]@ == all@[j].name@,
            decreases all.len() - i,
        {
            names.push(all[i].name.as_str());
            i = i + 1;
        }
        proof {
            assert forall|k: Seq<char>| #[trigger] self@.contains_key(k) implies exists|j: int| 0 <= j < names@.len() && names@[j]@ == k by {
                let j = choose|j: int| 0 <= j < all@.len() && all@[j].name@ == k;
                assert(names@[j]@ == k);
            }
            assert forall|j: int| 0 <= j < names@.len() implies self@.contains_key(#[trigger] names@[j]@) by {
                assert(names@[j]@ == all@[j].name@);
            }
        }
        names
    }
}

impl Default for TemplateRepository {
    fn default() -> (r: Self)
        ensures
            r@.dom() == set!["daily"@, "weekly"@, "monthly"@],
    {
        TemplateRepository::new()
    }
}

} // verus!
