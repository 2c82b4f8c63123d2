use vstd::prelude::*;

verus! {

/// One segment of a chat message.
#[derive(Clone, Debug)]
pub enum MessageSegment {
    Text { text: String },
    Mention { user_id: String },
    MentionAll,
    Image { file_id: String },
    Voice { file_id: String },
    Audio { file_id: String },
    Video { file_id: String },
    File { file_id: String },
    Reply { message_id: String, user_id: String },
    Custom { ty: String },
}

/// A chat message: its segments in order.
pub type Message = Vec<MessageSegment>;

/// Values that stand for a message.
pub trait IntoMessage: Sized {
    /// Whether `m` is the message that `self` stands for.
    spec fn is_message_of(self, m: Seq<MessageSegment>) -> bool;

    fn into_message(self) -> (r: Message)
        ensures
            Self::is_message_of(self, r@),
    ;
}

impl IntoMessage for String {
    /// A string is a message of one text segment.
    open spec fn is_message_of(self, m: Seq<MessageSegment>) -> bool {
        m == seq![MessageSegment::Text { text: self }]
    }

    fn into_message(self) -> (r: Message) {
        let mut m: Message = Vec::new();
        m.push(MessageSegment::Text { text: self });
        m
    }
}

impl<'a> IntoMessage for &'a str {
    /// A string slice is a message of one text segment with the same characters.
    open spec fn is_message_of(self, m: Seq<MessageSegment>) -> bool {
        m.len() == 1 && (m[0] matches MessageSegment::Text { text } && text@ == self@)
    }

    fn into_message(self) -> (r: Message) {
        let mut m: Message = Vec::new();
        m.push(MessageSegment::Text { text: self.to_owned() });
        m
    }
}

impl IntoMessage for Message {
    /// A message stands for itself.
    open spec fn is_message_of(self, m: Seq<MessageSegment>) -> bool {
        m == self@
    }

    fn into_message(self) -> (r: Message) {
        self
    }
}

/// Appending one segment at a time to a message.
pub trait MessageBuild: Sized {
    /// The segments of the message.
    spec fn segments(&self) -> Seq<MessageSegment>;

    fn text(self, text: String) -> (r: Self)
        ensures
            r.segments() == self.segments().push(MessageSegment::Text { text }),
    ;

    fn mention(self, user_id: String) -> (r: Self)
        ensures
            r.segments() == self.segments().push(MessageSegment::Mention { user_id }),
    ;

    fn mention_all(self) -> (r: Self)
        ensures
            r.segments() == self.segments().push(MessageSegment::MentionAll),
    ;

    fn image(self, file_id: String) -> (r: Self)
        ensures
            r.segments() == self.segments().push(MessageSegment::Image { file_id }),
    ;

    fn voice(self, file_id: String) -> (r: Self)
        ensures
            r.segments() == self.segments().push(MessageSegment::Voice { file_id }),
    ;

    fn audio(self, file_id: String) -> (r: Self)
        ensures
            r.segments() == self.segments().push(MessageSegment::Audio { file_id }),
    ;

    fn video(self, file_id: String) -> (r: Self)
        ensures
            r.segments() == self.segments().push(MessageSegment::Video { file_id }),
    ;

    fn file(self, file_id: String) -> (r: Self)
        ensures
            r.segments() == self.segments().push(MessageSegment::File { file_id }),
    ;

    fn reply(self, message_id: String, user_id: String) -> (r: Self)
        ensures
            r.segments() == self.segments().push(MessageSegment::Reply { message_id, user_id }),
    ;

    fn custom(self, ty: String) -> (r: Self)
        ensures
            r.segments() == self.segments().push(MessageSegment::Custom { ty }),
    ;
}

impl MessageBuild for Message {
    open spec fn segments(&self) -> Seq<MessageSegment> {
        self@
    }

    fn text(self, text: String) -> (r: Self) {
        let mut m = self;
        m.push(MessageSegment::Text { text });
        m
    }

    fn mention(self, user_id: String) -> (r: Self) {
        let mut m = self;
        m.push(MessageSegment::Mention { user_id });
        m
    }

    fn mention_all(self) -> (r: Self) {
        let mut m = self;
        m.push(MessageSegment::MentionAll);
        m
    }

    fn image(self, file_id: String) -> (r: Self) {
        let mut m = self;
        m.push(MessageSegment::Image { file_id });
        m
    }

    fn voice(self, file_id: String) -> (r: Self) {
        let mut m = self;
        m.push(MessageSegment::Voice { file_id });
        m
    }

    fn audio(self, file_id: String) -> (r: Self) {
        let mut m = self;
        m.push(MessageSegment::Audio { file_id });
        m
    }

    fn video(self, file_id: String) -> (r: Self) {
        let mut m = self;
        m.push(MessageSegment::Video { file_id });
        m
    }

    fn file(self, file_id: String) -> (r: Self) {
        let mut m = self;
        m.push(MessageSegment::File { file_id });
        m
    }

    fn reply(self, message_id: String, user_id: String) -> (r: Self) {
        let mut m = self;
        m.push(MessageSegment::Reply { message_id, user_id });
        m
    }

    fn custom(self, ty: String) -> (r: Self) {
        let mut m = self;
        m.push(MessageSegment::Custom { ty });
        m
    }
}

} // verus!
