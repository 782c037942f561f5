# rustgram

A terminal client for Telegram. The verified library in `src/` holds the application's
state and decisions:

- `app`: the sign-in steps (phone number, login code, password) and the chat list screen,
  what each key does at each step, what a submitted field asks Telegram for, and how the
  answer moves the application on;
- `history`: every call that changes the application as one step relation, and what
  holds over any sequence of calls (credentials kept, latest login token, the password
  token handed out once, numeric fields keeping only digits);
- `keys`: which keys may edit which field;
- `text`: white-space trimming and the removal of wide grapheme clusters (emoji) from names;
- `chats`: the lines of the chat list;
- `layout`: border tones and the margins of the sign-in screen;
- `text_area`, `tokens`: the text areas of `tui-textarea` and the tokens of `grammers`.

`app/` is the program: it talks to Telegram, reads the terminal's key events and draws
the screen with `ratatui`.
