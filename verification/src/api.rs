//! Requests against the endpoint and the decoding of its answers.

use vstd::prelude::*;
use crate::endpoint::{
    byte_len, has_room, parse_url, url_parse, url_parses, url_with_last_segment, Endpoint,
    API_URL,
};
use crate::error::{Error, UrlError};
use crate::listener::{Listener, ListenerState, ListeningMethod, Phase};
use crate::params::{
    form_encode, with_integer, with_optional, with_optional_bool, with_optional_text, with_text,
    Params, Request,
};

verus! {

/// Seconds after which reading from, or writing to, the connection gives up.
pub const IO_TIMEOUT_SECS: u64 = 5;

/// The message of the error for an answer that breaks the envelope's rules.
pub const INVALID_RESPONSE: &'static str = "Invalid server response";

/// The envelope around every answer. A successful one carries a result, a
/// failed one a description.
pub struct Response<T> {
    pub ok: bool,
    pub result: Option<T>,
    pub description: Option<String>,
}

/// How an exchange ended.
pub enum Exchange<T> {
    /// The network or the connection failed; the text says how.
    Failed(String),
    /// An answer came, but its body was no well-formed document of the
    /// expected shape; the text says why.
    Undecodable(String),
    /// An answer came and was decoded.
    Decoded(Response<T>),
}

impl<T> Response<T> {
    /// The envelope keeps its rules: a result where it reports success, a
    /// description where it reports failure.
    pub open spec fn valid(self) -> bool {
        if self.ok {
            self.result is Some
        } else {
            self.description is Some
        }
    }

    /// Opens the envelope: the result of a successful answer, the remote
    /// side's description as an error of a failed one, and an error of its own
    /// for an envelope that carries neither where it should.
    pub fn into_result(self) -> (r: Result<T, Error>)
        ensures
            self.ok && self.result is Some ==> r == Ok::<T, Error>(self.result->Some_0),
            !self.ok && self.description is Some ==> r == Err::<T, Error>(
                Error::Api(self.description->Some_0),
            ),
            !self.valid() ==> (r matches Err(Error::InvalidState(m)) && m@ == INVALID_RESPONSE@),
    {
        if self.ok {
            match self.result {
                Some(value) => Ok(value),
                None => Err(Error::InvalidState(INVALID_RESPONSE.to_owned())),
            }
        } else {
            match self.description {
                Some(text) => Err(Error::Api(text)),
                None => Err(Error::InvalidState(INVALID_RESPONSE.to_owned())),
            }
        }
    }
}

impl<T> Exchange<T> {
    /// What the caller of a method gets: a transport error where the
    /// exchange failed, a decode error where the body could not be decoded,
    /// else what the envelope holds.
    pub fn into_result(self) -> (r: Result<T, Error>)
        ensures
            self matches Exchange::Failed(why) ==> r == Err::<T, Error>(Error::Transport(why)),
            self matches Exchange::Undecodable(why) ==> r == Err::<T, Error>(Error::Decode(why)),
            self matches Exchange::Decoded(resp) ==> {
                &&& resp.ok && resp.result is Some ==> r == Ok::<T, Error>(resp.result->Some_0)
                &&& !resp.ok && resp.description is Some ==> r == Err::<T, Error>(
                    Error::Api(resp.description->Some_0),
                )
                &&& !resp.valid() ==> (r matches Err(Error::InvalidState(m)) && m@
                    == INVALID_RESPONSE@)
            },
    {
        match self {
            Exchange::Failed(why) => Err(Error::Transport(why)),
            Exchange::Undecodable(why) => Err(Error::Decode(why)),
            Exchange::Decoded(resp) => resp.into_result(),
        }
    }
}

/// The text that the endpoint of a token is parsed from.
pub open spec fn token_url(token: Seq<char>) -> Seq<char> {
    API_URL@ + token + "/dummy"@
}

/// The one field of `setWebhook`: the canonical form of the address, or an
/// empty value where none is given.
pub open spec fn webhook_fields(url: Option<&str>) -> Seq<(Seq<char>, Seq<char>)> {
    seq![
        (
            "url"@,
            match url {
                Some(u) => url_parse(u@)->Ok_0,
                None => Seq::empty(),
            },
        ),
    ]
}

/// The fields of `sendMessage`: the chat and the text, then each option that
/// is given.
pub open spec fn message_fields(
    chat_id: i64,
    text: String,
    parse_mode: Option<String>,
    disable_web_page_preview: Option<bool>,
    reply_to_message_id: Option<i64>,
    reply_markup: Option<String>,
) -> Seq<(Seq<char>, Seq<char>)> {
    let required = with_text(with_integer(Seq::empty(), "chat_id"@, chat_id as int), "text"@, text@);
    let styled = with_optional_bool(
        with_optional_text(required, "parse_mode"@, parse_mode),
        "disable_web_page_preview"@,
        disable_web_page_preview,
    );
    with_optional_text(
        with_optional(styled, "reply_to_message_id"@, reply_to_message_id),
        "reply_markup"@,
        reply_markup,
    )
}

/// What making a bot from a token gives: the bot on the token's address
/// where that address parses, else the parser's reason as an error.
pub open spec fn from_token_result(token: Seq<char>, r: Result<Api, Error>) -> bool {
    match url_parse(token_url(token)) {
        Ok(canonical) => r matches Ok(api) && api.endpoint() == token_url(token)
            && api.address_bytes() == byte_len(canonical),
        Err(why) => r matches Err(e) && e == Error::InvalidTokenFormat(why),
    }
}

/// Builds the requests of one bot.
pub struct Api {
    url: Endpoint,
}

impl Api {
    /// The address that the requests are derived from.
    pub closed spec fn endpoint(&self) -> Seq<char> {
        self.url@
    }

    /// The number of bytes of the address in canonical form.
    pub closed spec fn address_bytes(&self) -> nat {
        self.url.canonical_bytes()
    }

    /// Whether the address of `method` can be built: it must not outgrow
    /// what the URL parser can hold.
    pub open spec fn room_for(&self, method: Seq<char>) -> bool {
        has_room(self.address_bytes(), method)
    }

    /// What a request for `method` with these fields looks like.
    pub open spec fn request_for(
        &self,
        r: Request,
        method: Seq<char>,
        fields: Seq<(Seq<char>, Seq<char>)>,
    ) -> bool {
        &&& r.url@ == url_with_last_segment(self.endpoint(), method)
        &&& r.body@ == form_encode(fields)
    }

    /// The bot with the given token. Fails exactly if the token does not give
    /// a valid address, with the parser's reason; whether the remote side
    /// knows the token is not asked.
    pub fn from_token(token: &str) -> (r: Result<Api, Error>)
        ensures
            r is Ok <==> url_parses(token_url(token@)),
            from_token_result(token@, r),
    {
        let mut text = String::new();
        text.push_str(API_URL);
        text.push_str(token);
        text.push_str("/dummy");
        assert(text@ =~= token_url(token@));
        match Endpoint::parse(text) {
            Ok(url) => Ok(Api { url }),
            Err(e) => Err(Error::InvalidTokenFormat(e)),
        }
    }

    /// Whether the address of `method` can be built.
    pub fn has_room_for(&self, method: &str) -> (r: bool)
        ensures
            r == self.room_for(method@),
    {
        self.url.has_room_for(method)
    }

    /// The request that calls `method` with the given fields.
    pub fn request(&self, method: &str, params: &Params) -> (r: Request)
        requires
            self.room_for(method@),
        ensures
            self.request_for(r, method@, params@),
    {
        Request { url: self.url.method_url(method), body: params.encode() }
    }

    /// The request that calls `method` with the given fields, or nothing
    /// where the method's address cannot be built.
    pub fn try_request(&self, method: &str, params: &Params) -> (r: Option<Request>)
        ensures
            r is Some <==> self.room_for(method@),
            r matches Some(req) ==> self.request_for(req, method@, params@),
    {
        if self.has_room_for(method) {
            Some(self.request(method, params))
        } else {
            None
        }
    }

    /// The request for `getMe`: no fields.
    pub fn get_me(&self) -> (r: Request)
        requires
            self.room_for("getMe"@),
        ensures
            self.request_for(r, "getMe"@, Seq::empty()),
    {
        let params = Params::new();
        self.request("getMe", &params)
    }

    /// The bot whose token was looked up in the environment: the failure of
    /// the lookup is passed on, a token that was found is taken as by
    /// `from_token`.
    pub fn from_env(lookup: Result<String, String>) -> (r: Result<Api, Error>)
        ensures
            lookup matches Err(why) ==> r matches Err(Error::InvalidEnvironmentVar(w)) && w == why,
            lookup matches Ok(token) ==> from_token_result(token@, r),
    {
        match lookup {
            Ok(token) => Api::from_token(token.as_str()),
            Err(why) => Err(Error::InvalidEnvironmentVar(why)),
        }
    }

    /// The request for `sendMessage`. The parse mode is given by its name and
    /// the reply markup as the document that encodes it.
    pub fn send_message(
        &self,
        chat_id: i64,
        text: String,
        parse_mode: Option<String>,
        disable_web_page_preview: Option<bool>,
        reply_to_message_id: Option<i64>,
        reply_markup: Option<String>,
    ) -> (r: Request)
        requires
            self.room_for("sendMessage"@),
        ensures
            self.request_for(
                r,
                "sendMessage"@,
                message_fields(
                    chat_id,
                    text,
                    parse_mode,
                    disable_web_page_preview,
                    reply_to_message_id,
                    reply_markup,
                ),
            ),
    {
        let mut params = Params::new();
        params.add_get("chat_id", chat_id);
        params.add_get_text("text", text);
        params.add_get_text_opt("parse_mode", parse_mode);
        params.add_get_bool_opt("disable_web_page_preview", disable_web_page_preview);
        params.add_get_opt("reply_to_message_id", reply_to_message_id);
        params.add_get_text_opt("reply_markup", reply_markup);
        self.request("sendMessage", &params)
    }

    /// The request for `sendChatAction`, the action given by its name.
    pub fn send_chat_action(&self, chat_id: i64, action: String) -> (r: Request)
        requires
            self.room_for("sendChatAction"@),
        ensures
            self.request_for(
                r,
                "sendChatAction"@,
                with_text(
                    with_integer(Seq::empty(), "chat_id"@, chat_id as int),
                    "action"@,
                    action@,
                ),
            ),
    {
        let mut params = Params::new();
        params.add_get("chat_id", chat_id);
        params.add_get_text("action", action);
        self.request("sendChatAction", &params)
    }

    /// The request for `forwardMessage`.
    pub fn forward_message(&self, chat_id: i64, from_chat_id: i64, message_id: i64) -> (r: Request)
        requires
            self.room_for("forwardMessage"@),
        ensures
            self.request_for(
                r,
                "forwardMessage"@,
                with_integer(
                    with_integer(
                        with_integer(Seq::empty(), "chat_id"@, chat_id as int),
                        "from_chat_id"@,
                        from_chat_id as int,
                    ),
                    "message_id"@,
                    message_id as int,
                ),
            ),
    {
        let mut params = Params::new();
        params.add_get("chat_id", chat_id);
        params.add_get("from_chat_id", from_chat_id);
        params.add_get("message_id", message_id);
        self.request("forwardMessage", &params)
    }

    /// The request for `getUserProfilePhotos`.
    pub fn get_user_profile_photos(
        &self,
        user_id: i64,
        offset: Option<i64>,
        limit: Option<i64>,
    ) -> (r: Request)
        requires
            self.room_for("getUserProfilePhotos"@),
        ensures
            self.request_for(
                r,
                "getUserProfilePhotos"@,
                with_optional(
                    with_optional(
                        with_integer(Seq::empty(), "user_id"@, user_id as int),
                        "offset"@,
                        offset,
                    ),
                    "limit"@,
                    limit,
                ),
            ),
    {
        let mut params = Params::new();
        params.add_get("user_id", user_id);
        params.add_get_opt("offset", offset);
        params.add_get_opt("limit", limit);
        self.request("getUserProfilePhotos", &params)
    }

    /// The request for `getUpdates`. The offset is the caller's to set.
    pub fn get_updates(&self, offset: Option<i64>, limit: Option<i64>, timeout: Option<i64>) -> (r:
        Request)
        requires
            self.room_for("getUpdates"@),
        ensures
            self.request_for(
                r,
                "getUpdates"@,
                with_optional(
                    with_optional(with_optional(Seq::empty(), "offset"@, offset), "limit"@, limit),
                    "timeout"@,
                    timeout,
                ),
            ),
    {
        let mut params = Params::new();
        params.add_get_opt("offset", offset);
        params.add_get_opt("limit", limit);
        params.add_get_opt("timeout", timeout);
        self.request("getUpdates", &params)
    }

    /// The request for `setWebhook` with an address that is known to parse:
    /// its one field, `url`, holds the address in canonical form, or nothing
    /// where none is given.
    pub fn set_webhook(&self, url: Option<&str>) -> (r: Request)
        requires
            self.room_for("setWebhook"@),
            url matches Some(u) ==> url_parses(u@),
        ensures
            self.request_for(r, "setWebhook"@, webhook_fields(url)),
    {
        let target = match url {
            Some(u) => match parse_url(u) {
                Ok(s) => s,
                Err(_) => vstd::pervasive::unreached(),
            },
            None => String::new(),
        };
        let mut params = Params::new();
        params.add_get_text("url", target);
        self.request("setWebhook", &params)
    }

    /// The request for `setWebhook` with any text as the address: none
    /// exactly where the text does not parse as an absolute URL, or where the
    /// method's own address cannot be built.
    pub fn try_set_webhook(&self, url: Option<&str>) -> (r: Option<Request>)
        ensures
            r is Some <==> (self.room_for("setWebhook"@) && (url matches Some(u) ==> url_parses(
                u@,
            ))),
            r matches Some(req) ==> self.request_for(req, "setWebhook"@, webhook_fields(url)),
    {
        if !self.has_room_for("setWebhook") {
            return None;
        }
        match url {
            None => Some(self.set_webhook(None)),
            Some(u) => match parse_url(u) {
                Ok(_) => Some(self.set_webhook(url)),
                Err(_) => None,
            },
        }
    }

    /// A listener on this bot's endpoint that has confirmed nothing yet. It
    /// shares no state with the bot.
    pub fn listener(&self, method: ListeningMethod) -> (r: Listener)
        ensures
            r.endpoint() == self.endpoint(),
            r.address_bytes() == self.address_bytes(),
            r@ == (ListenerState {
                timeout: match method {
                    ListeningMethod::LongPoll(t) => t,
                },
                confirmed: 0,
                handled_until: 0,
                phase: Phase::Idle,
                batch: Seq::empty(),
                next: 0,
                failure: None,
            }),
            r@.wf(),
    {
        Listener::new(self.url.clone(), method)
    }
}

impl Clone for Api {
    /// A second bot on the same endpoint. The two share nothing.
    fn clone(&self) -> (r: Api)
        ensures
            r.endpoint() == self.endpoint(),
            r.address_bytes() == self.address_bytes(),
    {
        Api { url: self.url.clone() }
    }
}

} // verus!
