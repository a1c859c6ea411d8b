//! Contacts: who has an account, their pictures, and what is known of them.

use vstd::prelude::*;
use crate::client::account::{LearningSource, LidMapping, LidMappingView, jid_in};
use crate::client::error::IqFailure;
use crate::client::state::Client;
use crate::jid::{Jid, JidView, Server, opt_jid};
use crate::text_map::TextMap;

verus! {

/// Someone to ask the server about.
pub struct QueryUser {
    pub jid: Jid,
    /// The user name without phone number, where it is known already.
    pub known_lid: Option<String>,
}

/// Someone to ask the server about.
pub struct QueryUserView {
    pub jid: JidView,
    pub known_lid: Option<Seq<char>>,
}

impl View for QueryUser {
    type V = QueryUserView;

    open spec fn view(&self) -> QueryUserView {
        QueryUserView {
            jid: self.jid@,
            known_lid: match self.known_lid {
                Some(text) => Some(text@),
                None => None,
            },
        }
    }
}

/// The questions whether someone has an account. The two kinds of addresses take different
/// protocols, so they are asked about apart; where there is nobody to ask about, no question is
/// asked.
pub struct Queries {
    pub pn: Vec<QueryUser>,
    pub lid: Vec<QueryUser>,
}

/// What the server says of someone's account.
pub struct IsOnWhatsAppResult {
    pub jid: Jid,
    pub lid: Option<Jid>,
    /// The address by phone number, where the first one shows none.
    pub pn_jid: Option<Jid>,
    pub is_registered: bool,
    pub is_business: bool,
}

/// What the server knows of someone.
pub struct UserInfo {
    pub jid: Jid,
    pub lid: Option<Jid>,
    pub status: Option<String>,
    pub picture_id: Option<String>,
    pub is_business: bool,
}

/// Someone's picture.
pub struct ProfilePicture {
    pub id: String,
    pub url: String,
    pub direct_path: Option<String>,
    pub hash: Option<String>,
}

/// How large a picture is asked for.
#[derive(Clone, Copy, Debug, PartialEq, Eq, Structural)]
pub enum PictureKind {
    Preview,
    Full,
}

/// The query for someone's picture.
pub struct PictureQuery {
    pub jid: Jid,
    pub kind: PictureKind,
    /// The token that shows that we may see the picture goes with the query, if there is one.
    pub with_token: bool,
}

pub open spec fn user_views(users: Seq<QueryUser>) -> Seq<QueryUserView> {
    users.map_values(|user: QueryUser| user@)
}

/// How someone is asked about by phone number.
pub open spec fn pn_user(jid: JidView, lids: Map<Seq<char>, String>) -> QueryUserView {
    QueryUserView {
        jid: jid.non_ad(),
        known_lid: if lids.dom().contains(jid.user) {
            Some(lids[jid.user]@)
        } else {
            None
        },
    }
}

/// How someone is asked about by an address that shows no phone number.
pub open spec fn lid_user(jid: JidView) -> QueryUserView {
    QueryUserView { jid: jid.non_ad(), known_lid: None }
}

/// Who of some people is asked about by phone number.
pub open spec fn pn_users(jids: Seq<Jid>, lids: Map<Seq<char>, String>) -> Seq<QueryUserView>
    decreases jids.len(),
{
    if jids.len() == 0 {
        Seq::empty()
    } else if jids.last()@.server == Server::Pn {
        pn_users(jids.drop_last(), lids).push(pn_user(jids.last()@, lids))
    } else {
        pn_users(jids.drop_last(), lids)
    }
}

/// Who of some people is asked about by an address that shows no phone number.
pub open spec fn lid_users(jids: Seq<Jid>) -> Seq<QueryUserView>
    decreases jids.len(),
{
    if jids.len() == 0 {
        Seq::empty()
    } else if jids.last()@.server == Server::Lid {
        lid_users(jids.drop_last()).push(lid_user(jids.last()@))
    } else {
        lid_users(jids.drop_last())
    }
}

/// What an answer tells of two addresses that come together: only a phone number and an address
/// without one make a pair.
pub open spec fn usync_mapping(jid: JidView, lid: Option<JidView>) -> Option<LidMappingView> {
    match lid {
        Some(lid) => if jid.server == Server::Pn && lid.server == Server::Lid {
            Some(
                LidMappingView { lid: lid.user, pn: jid.user, source: LearningSource::Usync },
            )
        } else {
            None
        },
        None => None,
    }
}

/// The ones of a list that are there.
pub open spec fn present(entries: Seq<Option<LidMappingView>>) -> Seq<LidMappingView>
    decreases entries.len(),
{
    if entries.len() == 0 {
        Seq::empty()
    } else {
        match entries.last() {
            Some(mapping) => present(entries.drop_last()).push(mapping),
            None => present(entries.drop_last()),
        }
    }
}

pub open spec fn mapping_views(mappings: Seq<LidMapping>) -> Seq<LidMappingView> {
    mappings.map_values(|mapping: LidMapping| mapping@)
}

/// What the addresses of an answer tell, as they stand.
pub open spec fn stated_mapping(result: IsOnWhatsAppResult) -> Option<LidMappingView> {
    usync_mapping(result.jid@, jid_in(result.lid))
}

/// What an answer about an address without phone number tells of the phone number.
pub open spec fn reverse_mapping(result: IsOnWhatsAppResult) -> Option<LidMappingView> {
    if result.jid@.server == Server::Lid && result.pn_jid is Some {
        usync_mapping(result.pn_jid->0@, Some(result.jid@))
    } else {
        None
    }
}

pub open spec fn info_mapping(info: UserInfo) -> Option<LidMappingView> {
    usync_mapping(info.jid@, jid_in(info.lid))
}

fn learn(jid: &Jid, lid: Option<&Jid>) -> (r: Option<LidMapping>)
    ensures
        match r {
            Some(mapping) => usync_mapping(jid@, opt_jid(lid)) == Some(mapping@),
            None => usync_mapping(jid@, opt_jid(lid)) is None,
        },
{
    match lid {
        Some(lid) => if jid.is_pn() && lid.is_lid() {
            Some(
                LidMapping {
                    lid: lid.user.as_str().to_owned(),
                    pn: jid.user.as_str().to_owned(),
                    source: LearningSource::Usync,
                },
            )
        } else {
            None
        },
        None => None,
    }
}

/// Adds what one more entry tells.
fn note(mappings: &mut Vec<LidMapping>, mapping: Option<LidMapping>)
    ensures
        mapping_views(final(mappings)@) == (match mapping {
            Some(mapping) => mapping_views(old(mappings)@).push(mapping@),
            None => mapping_views(old(mappings)@),
        }),
{
    match mapping {
        Some(mapping) => {
            let ghost before = mappings@;
            let ghost value = mapping@;
            mappings.push(mapping);
            assert(mapping_views(mappings@) =~= mapping_views(before).push(value));
        },
        None => {},
    }
}

/// By which kind of address people are asked about.
#[derive(Clone, Copy, Debug, PartialEq, Eq, Structural)]
pub enum QueryKind {
    Pn,
    Lid,
}

/// What comes next while people are asked about.
pub enum QueryStep {
    /// Ask the server about these people.
    Ask { kind: QueryKind, users: Vec<QueryUser> },
    /// Everything was answered.
    Found(Vec<IsOnWhatsAppResult>),
    /// A question was not answered: there are no results.
    Failed,
}

/// What comes next while people are asked about, as mathematics.
pub enum StepView {
    Ask(QueryKind, Seq<QueryUserView>),
    Found(Seq<IsOnWhatsAppResult>),
    Failed,
}

impl View for QueryStep {
    type V = StepView;

    open spec fn view(&self) -> StepView {
        match *self {
            QueryStep::Ask { kind, users } => StepView::Ask(kind, user_views(users@)),
            QueryStep::Found(results) => StepView::Found(results@),
            QueryStep::Failed => StepView::Failed,
        }
    }
}

/// The course of the questions whether people have accounts.
pub struct Asking {
    /// The question that is being asked; there is none at the end.
    pub asked: Option<QueryKind>,
    /// Who is still to be asked about, by addresses that show no phone number.
    pub lid: Vec<QueryUser>,
    /// What was answered so far.
    pub results: Vec<IsOnWhatsAppResult>,
}

/// What [`Asking`] holds, as mathematics.
pub struct AskingView {
    pub asked: Option<QueryKind>,
    pub lid: Seq<QueryUserView>,
    pub results: Seq<IsOnWhatsAppResult>,
}

impl View for Asking {
    type V = AskingView;

    open spec fn view(&self) -> AskingView {
        AskingView { asked: self.asked, lid: user_views(self.lid@), results: self.results@ }
    }
}

impl AskingView {
    /// Where the course stands when there is nothing left to ask.
    pub open spec fn over() -> AskingView {
        AskingView { asked: None, lid: Seq::empty(), results: Seq::empty() }
    }

    /// What comes next once the phone numbers are dealt with: a question about the others, if
    /// there are any.
    pub open spec fn rest(lid: Seq<QueryUserView>, results: Seq<IsOnWhatsAppResult>) -> (
        AskingView,
        StepView,
    ) {
        if lid.len() > 0 {
            (
                AskingView { asked: Some(QueryKind::Lid), lid: Seq::empty(), results },
                StepView::Ask(QueryKind::Lid, lid),
            )
        } else {
            (AskingView::over(), StepView::Found(results))
        }
    }

    /// The first step: phone numbers are asked about first, if there are any.
    pub open spec fn first(pn: Seq<QueryUserView>, lid: Seq<QueryUserView>) -> (
        AskingView,
        StepView,
    ) {
        if pn.len() > 0 {
            (
                AskingView { asked: Some(QueryKind::Pn), lid, results: Seq::empty() },
                StepView::Ask(QueryKind::Pn, pn),
            )
        } else {
            AskingView::rest(lid, Seq::empty())
        }
    }

    /// The step after the answers to a question have come, or have not.
    pub open spec fn after(self, answers: Option<Seq<IsOnWhatsAppResult>>) -> (
        AskingView,
        StepView,
    ) {
        match answers {
            Some(answers) => AskingView::rest(self.lid, self.results + answers),
            None => (AskingView::over(), StepView::Failed),
        }
    }
}

/// The answers that may have come.
pub open spec fn opt_results(answers: Option<Vec<IsOnWhatsAppResult>>) -> Option<
    Seq<IsOnWhatsAppResult>,
> {
    match answers {
        Some(answers) => Some(answers@),
        None => None,
    }
}

impl Asking {
    fn rest(lid: Vec<QueryUser>, results: Vec<IsOnWhatsAppResult>) -> (r: (Asking, QueryStep))
        ensures
            (r.0@, r.1@) == AskingView::rest(user_views(lid@), results@),
    {
        let nobody: Vec<QueryUser> = Vec::new();
        let nothing: Vec<IsOnWhatsAppResult> = Vec::new();
        assert(user_views(nobody@) =~= Seq::<QueryUserView>::empty());
        assert(nothing@ =~= Seq::<IsOnWhatsAppResult>::empty());
        if lid.len() > 0 {
            (
                Asking { asked: Some(QueryKind::Lid), lid: nobody, results },
                QueryStep::Ask { kind: QueryKind::Lid, users: lid },
            )
        } else {
            (
                Asking { asked: None, lid: nobody, results: nothing },
                QueryStep::Found(results),
            )
        }
    }

    /// Begins to ask.
    pub fn start(queries: Queries) -> (r: (Asking, QueryStep))
        ensures
            (r.0@, r.1@) == AskingView::first(user_views(queries.pn@), user_views(queries.lid@)),
    {
        let results: Vec<IsOnWhatsAppResult> = Vec::new();
        assert(results@ =~= Seq::<IsOnWhatsAppResult>::empty());
        if queries.pn.len() > 0 {
            (
                Asking { asked: Some(QueryKind::Pn), lid: queries.lid, results },
                QueryStep::Ask { kind: QueryKind::Pn, users: queries.pn },
            )
        } else {
            Asking::rest(queries.lid, results)
        }
    }

    /// Takes in the answers to a question, or that there are none.
    pub fn answered(self, answers: Option<Vec<IsOnWhatsAppResult>>) -> (r: (Asking, QueryStep))
        ensures
            (r.0@, r.1@) == self@.after(opt_results(answers)),
    {
        match answers {
            Some(answers) => {
                let ghost joined = self.results@ + answers@;
                let mut results = self.results;
                let mut more = answers;
                results.append(&mut more);
                assert(results@ =~= joined);
                Asking::rest(self.lid, results)
            },
            None => {
                let nobody: Vec<QueryUser> = Vec::new();
                let nothing: Vec<IsOnWhatsAppResult> = Vec::new();
                assert(user_views(nobody@) =~= Seq::<QueryUserView>::empty());
                assert(nothing@ =~= Seq::<IsOnWhatsAppResult>::empty());
                (Asking { asked: None, lid: nobody, results: nothing }, QueryStep::Failed)
            },
        }
    }
}

/// Where there is nobody to ask about, nothing is asked and nothing is found. Otherwise phone
/// numbers are asked about in one question, and then the others in another one, each only where
/// there are any. The results are the answers to the first question and then those to the second.
/// A question that is not answered ends it, without results.
pub proof fn phone_numbers_are_asked_about_first(
    pn: Seq<QueryUserView>,
    lid: Seq<QueryUserView>,
    first: Seq<IsOnWhatsAppResult>,
    second: Seq<IsOnWhatsAppResult>,
)
    ensures
        ({
            let (start, step) = AskingView::first(pn, lid);
            let (next, next_step) = start.after(Some(first));
            if pn.len() > 0 {
                &&& step == StepView::Ask(QueryKind::Pn, pn)
                &&& start.after(None).1 == StepView::Failed
                &&& if lid.len() > 0 {
                    &&& next_step == StepView::Ask(QueryKind::Lid, lid)
                    &&& next.after(Some(second)).1 == StepView::Found(first + second)
                    &&& next.after(None).1 == StepView::Failed
                } else {
                    next_step == StepView::Found(first)
                }
            } else if lid.len() > 0 {
                &&& step == StepView::Ask(QueryKind::Lid, lid)
                &&& next_step == StepView::Found(first)
                &&& start.after(None).1 == StepView::Failed
            } else {
                step == StepView::Found(Seq::<IsOnWhatsAppResult>::empty())
            }
        }),
{
    assert(Seq::<IsOnWhatsAppResult>::empty() + first =~= first);
}

/// Asks for contacts on behalf of the application.
pub struct Contacts<'a> {
    pub client: &'a Client,
}

impl<'a> Contacts<'a> {
    pub fn new(client: &'a Client) -> (r: Contacts<'a>)
        ensures
            *r.client == *client,
    {
        Contacts { client }
    }

    /// Begins to ask whether people have accounts, given the user names without phone number that
    /// are known of phone numbers. Other addresses than those of people are passed over.
    pub fn is_on_whatsapp(&self, jids: &Vec<Jid>, lids: &TextMap<String>) -> (r: (
        Asking,
        QueryStep,
    ))
        ensures
            (r.0@, r.1@) == AskingView::first(pn_users(jids@, lids@), lid_users(jids@)),
    {
        Asking::start(self.queries(jids, lids))
    }

    /// Who is asked about by which kind of address.
    pub fn queries(&self, jids: &Vec<Jid>, lids: &TextMap<String>) -> (r: Queries)
        ensures
            user_views(r.pn@) == pn_users(jids@, lids@),
            user_views(r.lid@) == lid_users(jids@),
    {
        let mut pn: Vec<QueryUser> = Vec::new();
        let mut lid: Vec<QueryUser> = Vec::new();
        let mut i: usize = 0;
        assert(user_views(pn@) =~= pn_users(jids@.take(0), lids@));
        assert(user_views(lid@) =~= lid_users(jids@.take(0)));
        while i < jids.len()
            invariant
                i <= jids@.len(),
                user_views(pn@) == pn_users(jids@.take(i as int), lids@),
                user_views(lid@) == lid_users(jids@.take(i as int)),
            decreases jids@.len() - i,
        {
            let jid = &jids[i];
            let ghost pn_before = pn@;
            let ghost lid_before = lid@;
            proof {
                assert(jids@.take(i + 1).drop_last() =~= jids@.take(i as int));
                assert(jids@.take(i + 1).last() == jids@[i as int]);
            }
            if jid.is_pn() {
                let known_lid = match lids.get(jid.user.as_str()) {
                    Some(text) => Some(text.as_str().to_owned()),
                    None => None,
                };
                pn.push(QueryUser { jid: jid.to_non_ad(), known_lid });
                assert(pn@.last()@ == pn_user(jid@, lids@));
                assert(user_views(pn@) =~= user_views(pn_before).push(pn_user(jid@, lids@)));
            } else if jid.is_lid() {
                lid.push(QueryUser { jid: jid.to_non_ad(), known_lid: None });
                assert(lid@.last()@ == lid_user(jid@));
                assert(user_views(lid@) =~= user_views(lid_before).push(lid_user(jid@)));
            }
            i += 1;
        }
        assert(jids@.take(jids@.len() as int) =~= jids@);
        Queries { pn, lid }
    }

    /// The pairs of addresses that the answers tell of.
    pub fn learned_from_results(&self, results: &Vec<IsOnWhatsAppResult>) -> (r: Vec<LidMapping>)
        ensures
            mapping_views(r@) == present(
                results@.map_values(|result: IsOnWhatsAppResult| stated_mapping(result)),
            ) + present(results@.map_values(|result: IsOnWhatsAppResult| reverse_mapping(result))),
    {
        let mut mappings: Vec<LidMapping> = Vec::new();
        let ghost stated = results@.map_values(|result: IsOnWhatsAppResult| stated_mapping(result));
        let ghost reverse = results@.map_values(
            |result: IsOnWhatsAppResult| reverse_mapping(result),
        );
        let mut i: usize = 0;
        assert(mapping_views(mappings@) =~= present(stated.take(0)));
        while i < results.len()
            invariant
                i <= results@.len(),
                stated == results@.map_values(|result: IsOnWhatsAppResult| stated_mapping(result)),
                mapping_views(mappings@) == present(stated.take(i as int)),
            decreases results@.len() - i,
        {
            proof {
                assert(stated.take(i + 1).drop_last() =~= stated.take(i as int));
                assert(stated.take(i + 1).last() == stated_mapping(results@[i as int]));
            }
            let mapping = learn(&results[i].jid, results[i].lid.as_ref());
            note(&mut mappings, mapping);
            i += 1;
        }
        assert(stated.take(stated.len() as int) =~= stated);
        let mut j: usize = 0;
        assert(mapping_views(mappings@) =~= present(stated) + present(reverse.take(0)));
        while j < results.len()
            invariant
                j <= results@.len(),
                reverse == results@.map_values(
                    |result: IsOnWhatsAppResult| reverse_mapping(result),
                ),
                mapping_views(mappings@) == present(stated) + present(reverse.take(j as int)),
            decreases results@.len() - j,
        {
            let ghost before = mapping_views(mappings@);
            proof {
                assert(reverse.take(j + 1).drop_last() =~= reverse.take(j as int));
                assert(reverse.take(j + 1).last() == reverse_mapping(results@[j as int]));
            }
            if results[j].jid.is_lid() {
                match results[j].pn_jid.as_ref() {
                    Some(phone) => {
                        let mapping = learn(phone, Some(&results[j].jid));
                        note(&mut mappings, mapping);
                    },
                    None => {},
                }
            }
            assert(mapping_views(mappings@) =~= present(stated) + present(reverse.take(j + 1)));
            j += 1;
        }
        assert(reverse.take(reverse.len() as int) =~= reverse);
        mappings
    }

    /// Whether a query for someone's picture carries a token that shows that we may see it.
    /// Only people have such tokens, and the server does not answer a query for our own picture
    /// with one.
    pub open spec fn sends_token(self, jid: JidView, enabled: bool) -> bool {
        &&& jid.server != Server::Group
        &&& jid.server != Server::Newsletter
        &&& !jid.bot()
        &&& !jid.broadcast_list()
        &&& !jid.status_broadcast()
        &&& !self.client.account.owns(jid)
        &&& enabled
    }

    /// The query for someone's picture; `enabled` tells whether tokens are in use at all.
    pub fn get_profile_picture(&self, jid: &Jid, preview: bool, enabled: bool) -> (r: PictureQuery)
        ensures
            r.jid@ == jid@,
            r.kind == (if preview {
                PictureKind::Preview
            } else {
                PictureKind::Full
            }),
            r.with_token == self.sends_token(jid@, enabled),
    {
        let kind = if preview {
            PictureKind::Preview
        } else {
            PictureKind::Full
        };
        let with_token = !jid.is_group() && !jid.is_newsletter() && !jid.is_bot()
            && !jid.is_broadcast_list() && !jid.is_status_broadcast()
            && !self.client.account.is_own_user(jid) && enabled;
        PictureQuery { jid: jid.clone(), kind, with_token }
    }

    /// What a query for a picture has come to: a picture that does not exist, or that we may not
    /// see, is none.
    pub fn picture_result(answer: Result<Option<ProfilePicture>, IqFailure>) -> (r: Result<
        Option<ProfilePicture>,
        IqFailure,
    >)
        ensures
            r == (match answer {
                Err(IqFailure::Server { code }) => if code == 404 || code == 401 {
                    Ok(None)
                } else {
                    answer
                },
                _ => answer,
            }),
    {
        match answer {
            Ok(picture) => Ok(picture),
            Err(IqFailure::Server { code }) => if code == 404 || code == 401 {
                Ok(None)
            } else {
                Err(IqFailure::Server { code })
            },
            Err(failure) => Err(failure),
        }
    }

    /// Whom the server is to be asked about. About nobody it is not asked.
    pub fn get_user_info(&self, jids: &Vec<Jid>) -> (r: Option<Vec<Jid>>)
        ensures
            match r {
                Some(asked) => jids@.len() > 0 && asked@ == jids@,
                None => jids@.len() == 0,
            },
    {
        if jids.len() == 0 {
            return None;
        }
        let mut asked: Vec<Jid> = Vec::new();
        let mut i: usize = 0;
        while i < jids.len()
            invariant
                i <= jids@.len(),
                asked@ == jids@.take(i as int),
            decreases jids@.len() - i,
        {
            asked.push(jids[i].clone());
            assert(jids@.take(i + 1) =~= jids@.take(i as int).push(jids@[i as int]));
            i += 1;
        }
        assert(jids@.take(jids@.len() as int) =~= jids@);
        Some(asked)
    }

    /// The pairs of addresses that the answers tell of.
    pub fn learned_from_info(&self, infos: &Vec<UserInfo>) -> (r: Vec<LidMapping>)
        ensures
            mapping_views(r@) == present(infos@.map_values(|info: UserInfo| info_mapping(info))),
    {
        let mut mappings: Vec<LidMapping> = Vec::new();
        let ghost told = infos@.map_values(|info: UserInfo| info_mapping(info));
        let mut i: usize = 0;
        assert(mapping_views(mappings@) =~= present(told.take(0)));
        while i < infos.len()
            invariant
                i <= infos@.len(),
                told == infos@.map_values(|info: UserInfo| info_mapping(info)),
                mapping_views(mappings@) == present(told.take(i as int)),
            decreases infos@.len() - i,
        {
            proof {
                assert(told.take(i + 1).drop_last() =~= told.take(i as int));
                assert(told.take(i + 1).last() == info_mapping(infos@[i as int]));
            }
            let mapping = learn(&infos[i].jid, infos[i].lid.as_ref());
            note(&mut mappings, mapping);
            i += 1;
        }
        assert(told.take(told.len() as int) =~= told);
        mappings
    }
}

impl Client {
    pub fn contacts(&self) -> (r: Contacts<'_>)
        ensures
            *r.client == *self,
    {
        Contacts::new(self)
    }
}

/// Mixed questions are split: nobody is asked about twice, everyone with an address of either
/// kind is asked about, and by the whole account, not by device.
pub proof fn mixed_queries_are_split(jids: Seq<Jid>, lids: Map<Seq<char>, String>)
    ensures
        pn_users(jids, lids).len() + lid_users(jids).len() <= jids.len(),
        forall|i: int|
            0 <= i < pn_users(jids, lids).len() ==> (#[trigger] pn_users(jids, lids)[i]).jid.server
                == Server::Pn && pn_users(jids, lids)[i].jid.device == 0,
        forall|i: int|
            0 <= i < lid_users(jids).len() ==> (#[trigger] lid_users(jids)[i]).jid.server
                == Server::Lid && lid_users(jids)[i].jid.device == 0,
        forall|i: int|
            0 <= i < jids.len() && (#[trigger] jids[i])@.server == Server::Pn ==> pn_users(
                jids,
                lids,
            ).contains(pn_user(jids[i]@, lids)),
        forall|i: int|
            0 <= i < jids.len() && (#[trigger] jids[i])@.server == Server::Lid ==> lid_users(
                jids,
            ).contains(lid_user(jids[i]@)),
    decreases jids.len(),
{
    if jids.len() > 0 {
        let rest = jids.drop_last();
        let last = jids.last()@;
        mixed_queries_are_split(rest, lids);
        let pn = pn_users(jids, lids);
        let lid = lid_users(jids);
        assert forall|i: int| 0 <= i < jids.len() && (#[trigger] jids[i])@.server
            == Server::Pn implies pn.contains(pn_user(jids[i]@, lids)) by {
            if i < rest.len() {
                assert(rest[i] == jids[i]);
                let before = pn_users(rest, lids);
                let j = before.index_of(pn_user(rest[i]@, lids));
                assert(pn[j] == before[j]);
            } else {
                assert(pn[pn.len() - 1] == pn_user(last, lids));
            }
        }
        assert forall|i: int| 0 <= i < jids.len() && (#[trigger] jids[i])@.server
            == Server::Lid implies lid.contains(lid_user(jids[i]@)) by {
            if i < rest.len() {
                assert(rest[i] == jids[i]);
                let before = lid_users(rest);
                let j = before.index_of(lid_user(rest[i]@));
                assert(lid[j] == before[j]);
            } else {
                assert(lid[lid.len() - 1] == lid_user(last));
            }
        }
    }
}

/// Someone with a phone number is asked about by it, with the name without phone number where it
/// is known; someone without one by that name. Nobody else is asked about. Those asked about keep
/// their order.
pub proof fn people_are_asked_about_by_kind(jids: Seq<Jid>, jid: Jid, lids: Map<Seq<char>, String>)
    ensures
        pn_users(Seq::empty(), lids) == Seq::<QueryUserView>::empty(),
        lid_users(Seq::empty()) == Seq::<QueryUserView>::empty(),
        jid@.server is Pn ==> ({
            let asked = pn_users(jids.push(jid), lids);
            &&& asked.len() == pn_users(jids, lids).len() + 1
            &&& asked.drop_last() == pn_users(jids, lids)
            &&& asked.last().jid == (JidView { agent: 0, device: 0, ..jid@ })
            &&& lids.dom().contains(jid@.user) ==> asked.last().known_lid == Some(
                lids[jid@.user]@,
            )
            &&& !lids.dom().contains(jid@.user) ==> asked.last().known_lid is None
            &&& lid_users(jids.push(jid)) == lid_users(jids)
        }),
        jid@.server is Lid ==> ({
            let asked = lid_users(jids.push(jid));
            &&& asked.len() == lid_users(jids).len() + 1
            &&& asked.drop_last() == lid_users(jids)
            &&& asked.last().jid == (JidView { agent: 0, device: 0, ..jid@ })
            &&& asked.last().known_lid is None
            &&& pn_users(jids.push(jid), lids) == pn_users(jids, lids)
        }),
        !(jid@.server is Pn) && !(jid@.server is Lid) ==> pn_users(jids.push(jid), lids)
            == pn_users(jids, lids) && lid_users(jids.push(jid)) == lid_users(jids),
{
    assert(jids.push(jid).drop_last() =~= jids);
    assert(pn_users(jids.push(jid), lids).drop_last() =~= pn_users(jids, lids) || !(
    jid@.server is Pn));
    assert(lid_users(jids.push(jid)).drop_last() =~= lid_users(jids) || !(jid@.server is Lid));
}

/// Two addresses make a pair exactly where the first is a phone number and the second a LID; the
/// pair holds the user of each. An answer about a LID tells of the phone number that comes with
/// it.
pub proof fn answers_tell_of_pairs(result: IsOnWhatsAppResult, info: UserInfo)
    ensures
        stated_mapping(result) is Some <==> result.jid@.server is Pn && result.lid is Some
            && result.lid->0@.server is Lid,
        stated_mapping(result) matches Some(pair) ==> pair.pn == result.jid@.user && pair.lid
            == result.lid->0@.user && pair.source == LearningSource::Usync,
        reverse_mapping(result) is Some <==> result.jid@.server is Lid && result.pn_jid is Some
            && result.pn_jid->0@.server is Pn,
        reverse_mapping(result) matches Some(pair) ==> pair.lid == result.jid@.user && pair.pn
            == result.pn_jid->0@.user && pair.source == LearningSource::Usync,
        info_mapping(info) is Some <==> info.jid@.server is Pn && info.lid is Some
            && info.lid->0@.server is Lid,
        info_mapping(info) matches Some(pair) ==> pair.pn == info.jid@.user && pair.lid
            == info.lid->0@.user && pair.source == LearningSource::Usync,
{
}

/// Every pair that a list of answers tells of is learned, in order, and nothing else.
pub proof fn pairs_are_learned_in_order(
    entries: Seq<Option<LidMappingView>>,
    pair: LidMappingView,
)
    ensures
        present(Seq::empty()) == Seq::<LidMappingView>::empty(),
        present(entries.push(Some(pair))) == present(entries).push(pair),
        present(entries.push(None)) == present(entries),
{
    assert(entries.push(Some(pair)).drop_last() =~= entries);
    assert(entries.push(None).drop_last() =~= entries);
}

/// A token goes with a query for a picture exactly where tokens are in use and the picture is that
/// of another person: not of a group, a newsletter, a broadcast, a bot, or of us.
pub proof fn tokens_are_for_people(contacts: Contacts<'_>, jid: JidView)
    ensures
        !contacts.sends_token(jid, false),
        contacts.sends_token(jid, true) <==> !({
            ||| jid.server is Group
            ||| jid.server is Newsletter
            ||| jid.server is Broadcast
            ||| jid.bot()
            ||| contacts.client.account.pn is Some && contacts.client.account.pn->0@.user
                == jid.user
            ||| contacts.client.account.lid is Some && contacts.client.account.lid->0@.user
                == jid.user
        }),
{
}

/// Questions and pairs are looked at as they are, and lists of them one by one.
pub proof fn questions_are_looked_at_whole(
    user: QueryUser,
    users: Seq<QueryUser>,
    mapping: LidMapping,
    mappings: Seq<LidMapping>,
    step: QueryStep,
    asking: Asking,
)
    ensures
        user@.jid == user.jid@,
        user@.known_lid is Some <==> user.known_lid is Some,
        user.known_lid matches Some(lid) ==> user@.known_lid == Some(lid@),
        user_views(users.push(user)) == user_views(users).push(user@),
        user_views(Seq::empty()) == Seq::<QueryUserView>::empty(),
        mapping_views(mappings.push(mapping)) == mapping_views(mappings).push(mapping@),
        mapping_views(Seq::empty()) == Seq::<LidMappingView>::empty(),
        step matches QueryStep::Ask { kind, users } ==> step@ == StepView::Ask(
            kind,
            user_views(users@),
        ),
        step matches QueryStep::Found(results) ==> step@ == StepView::Found(results@),
        step is Failed ==> step@ is Failed,
        asking@.asked == asking.asked,
        asking@.lid == user_views(asking.lid@),
        asking@.results == asking.results@,
        opt_results(None) is None,
        opt_results(Some(asking.results)) == Some(asking.results@),
{
    assert(user_views(users.push(user)) =~= user_views(users).push(user@));
    assert(user_views(Seq::empty()) =~= Seq::<QueryUserView>::empty());
    assert(mapping_views(mappings.push(mapping)) =~= mapping_views(mappings).push(mapping@));
    assert(mapping_views(Seq::empty()) =~= Seq::<LidMappingView>::empty());
}

} // verus!
